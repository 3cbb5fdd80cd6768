//! The prefix commands: invite link, ping, shutdown, and joining and leaving
//! voice channels.

use vstd::prelude::*;
use vstd::utf8::encode_utf8;

use crate::text::{append_decimal, decimal, parse_u64, parsed_u64};

verus! {

/// The localised messages the commands reply with, by their keys.
#[derive(Clone, Copy, Debug, PartialEq, Eq, Structural)]
pub enum MessageId {
    NotInVoiceChannel,
    UnexpectedError,
    JoinFailed,
    Joined,
    LeaveFailed,
    LeftVoiceChannel,
    PingError,
    PingRetry,
    ShutdownSuccess,
    ShutdownFail,
    UpdateVoiceModel,
}

/// The key a message is looked up by.
pub open spec fn message_key(m: MessageId) -> Seq<char> {
    match m {
        MessageId::NotInVoiceChannel => "NotInVoiceChannel"@,
        MessageId::UnexpectedError => "UnexpectedError"@,
        MessageId::JoinFailed => "JoinFailed"@,
        MessageId::Joined => "Joined"@,
        MessageId::LeaveFailed => "LeaveFailed"@,
        MessageId::LeftVoiceChannel => "LeftVoiceChannel"@,
        MessageId::PingError => "PingError"@,
        MessageId::PingRetry => "PingRetry"@,
        MessageId::ShutdownSuccess => "ShutdownSuccess"@,
        MessageId::ShutdownFail => "ShutdownFail"@,
        MessageId::UpdateVoiceModel => "UpdateVoiceModel"@,
    }
}

impl MessageId {
    /// The key the message is looked up by.
    pub fn key(&self) -> (s: &'static str)
        ensures
            s@ == message_key(*self),
    {
        match self {
            MessageId::NotInVoiceChannel => "NotInVoiceChannel",
            MessageId::UnexpectedError => "UnexpectedError",
            MessageId::JoinFailed => "JoinFailed",
            MessageId::Joined => "Joined",
            MessageId::LeaveFailed => "LeaveFailed",
            MessageId::LeftVoiceChannel => "LeftVoiceChannel",
            MessageId::PingError => "PingError",
            MessageId::PingRetry => "PingRetry",
            MessageId::ShutdownSuccess => "ShutdownSuccess",
            MessageId::ShutdownFail => "ShutdownFail",
            MessageId::UpdateVoiceModel => "UpdateVoiceModel",
        }
    }
}

/// Whether a byte is left as it is by URL encoding: an ASCII letter or digit,
/// or one of `-`, `.`, `_`, `~`.
pub open spec fn url_safe(b: u8) -> bool {
    (48 <= b <= 57) || (65 <= b <= 90) || (97 <= b <= 122) || b == 45 || b == 46 || b == 95 || b == 126
}

/// The upper-case hexadecimal digit of `d` (below 16).
pub open spec fn hex_upper(d: int) -> char {
    if d < 10 { ((48 + d) as u8) as char } else { ((55 + d) as u8) as char }
}

/// Percent-encoding of bytes: safe bytes as themselves, every other byte as
/// `%` and two upper-case hexadecimal digits.
pub open spec fn percent_encoded(bytes: Seq<u8>) -> Seq<char>
    decreases bytes.len(),
{
    if bytes.len() == 0 {
        Seq::<char>::empty()
    } else {
        let b = bytes[0];
        (if url_safe(b) { seq![b as char] } else { seq!['%', hex_upper(b as int / 16), hex_upper(b as int % 16)] })
            + percent_encoded(bytes.drop_first())
    }
}

/// `urlencoding::encode`: the UTF-8 bytes of `s`, percent-encoded.
#[verifier::external_body]
fn url_encode(s: &str) -> (r: String)
    ensures
        r@ == percent_encoded(encode_utf8(s@)),
{
    urlencoding::encode(s).into_owned()
}

/// The permission bits of the invite: the configured number when it parses,
/// otherwise 8 (administrator).
pub open spec fn invite_permissions(configured: Option<Seq<char>>) -> u64 {
    match configured {
        Some(p) => match parsed_u64(p) {
            Some(v) => v,
            None => 8,
        },
        None => 8,
    }
}

/// The scopes of the invite: the configured ones, or
/// `bot applications.commands`.
pub open spec fn invite_scopes(configured: Option<Seq<char>>) -> Seq<char> {
    match configured {
        Some(s) => s,
        None => "bot applications.commands"@,
    }
}

/// The views of an optional string.
pub open spec fn opt_text(o: Option<String>) -> Option<Seq<char>> {
    match o {
        Some(s) => Some(s@),
        None => None,
    }
}

/// The bot's invite link for the application `client_id`, with the
/// configured permission bits and scopes (or their defaults).
pub fn invite_url(client_id: &str, permissions: Option<String>, scopes: Option<String>) -> (url: String)
    ensures
        url@ == "https://discord.com/oauth2/authorize?client_id="@ + client_id@ + "&permissions="@
            + decimal(invite_permissions(opt_text(permissions)) as nat) + "&scope="@
            + percent_encoded(encode_utf8(invite_scopes(opt_text(scopes)))),
{
    let perm: u64 = match &permissions {
        Some(p) => match parse_u64(p.as_str()) {
            Some(v) => v,
            None => 8,
        },
        None => 8,
    };
    let scope_text = match scopes {
        Some(s) => s,
        None => String::from_str("bot applications.commands"),
    };
    let encoded = url_encode(scope_text.as_str());
    let mut url = String::from_str("https://discord.com/oauth2/authorize?client_id=");
    url.append(client_id);
    url.append("&permissions=");
    append_decimal(&mut url, perm as u128);
    url.append("&scope=");
    url.append(encoded.as_str());
    url
}

/// A reply: a fixed text, or a localised message.
pub enum Reply {
    Text(String),
    Localized(MessageId),
}

/// The reply to `ping`: `Unexpected Error` without the shard manager, the
/// localised error without this shard's runner, the localised retry note
/// before the first heartbeat, and otherwise the latency in milliseconds.
pub fn ping_reply(has_shard_manager: bool, runner: Option<Option<u128>>) -> (r: Reply)
    ensures
        !has_shard_manager ==> (r matches Reply::Text(t) && t@ == "Unexpected Error"@),
        has_shard_manager && runner is None ==> r == Reply::Localized(MessageId::PingError),
        has_shard_manager && runner == Some(None::<u128>) ==> r == Reply::Localized(MessageId::PingRetry),
        runner matches Some(Some(ms)) ==> (has_shard_manager ==> (r matches Reply::Text(t)
            && t@ == "\u{1f3d3} Pong! **"@ + decimal(ms as nat) + "** ms"@)),
{
    if !has_shard_manager {
        return Reply::Text(String::from_str("Unexpected Error"));
    }
    match runner {
        None => Reply::Localized(MessageId::PingError),
        Some(None) => Reply::Localized(MessageId::PingRetry),
        Some(Some(ms)) => {
            let mut t = String::from_str("\u{1f3d3} Pong! **");
            append_decimal(&mut t, ms);
            t.append("** ms");
            Reply::Text(t)
        },
    }
}

/// The reply to `down`, and whether the shards are shut down after it.
pub fn down_reply(has_shard_manager: bool) -> (r: (MessageId, bool))
    ensures
        has_shard_manager ==> r == (MessageId::ShutdownSuccess, true),
        !has_shard_manager ==> r == (MessageId::ShutdownFail, false),
{
    if has_shard_manager {
        (MessageId::ShutdownSuccess, true)
    } else {
        (MessageId::ShutdownFail, false)
    }
}

/// What a voice command asks of its surroundings.
#[derive(Clone, Copy, Debug, PartialEq, Eq, Structural)]
pub enum VoiceAction {
    Reply(MessageId),
    CheckManager,
    Connect { guild_id: u64, channel_id: u64 },
    CheckCall { guild_id: u64 },
    Disconnect { guild_id: u64 },
    /// Store `channel_id` as the text channel read aloud in `guild_id`.
    StoreJoinedChannel { guild_id: u64, channel_id: u64 },
}

/// What the surroundings report to a voice command.
#[derive(Clone, Copy, Debug, PartialEq, Eq, Structural)]
pub enum VoiceEvent {
    Manager(bool),
    Connected(bool),
    InCall(bool),
    Disconnected(bool),
}

/// Where a voice command stands.
#[derive(Clone, Copy, Debug, PartialEq, Eq, Structural)]
pub enum VoiceStage {
    JoinAwaitManager { guild_id: u64, voice_channel: u64, text_channel: u64 },
    JoinAwaitConnect { guild_id: u64, text_channel: u64 },
    LeaveAwaitManager { guild_id: u64 },
    LeaveAwaitCall { guild_id: u64 },
    LeaveAwaitDisconnect { guild_id: u64 },
    Done,
}

/// `join`: without a voice channel of the author's, the not-in-voice reply;
/// otherwise the voice manager is checked.
pub fn join_start(guild_id: u64, author_voice_channel: Option<u64>, text_channel: u64) -> (r: (VoiceStage, Vec<VoiceAction>))
    ensures
        author_voice_channel is None ==> r.0 is Done && r.1@ == seq![VoiceAction::Reply(MessageId::NotInVoiceChannel)],
        author_voice_channel matches Some(c) ==> r.0 == (VoiceStage::JoinAwaitManager { guild_id, voice_channel: c, text_channel })
            && r.1@ == seq![VoiceAction::CheckManager],
{
    let mut actions: Vec<VoiceAction> = Vec::new();
    match author_voice_channel {
        None => {
            actions.push(VoiceAction::Reply(MessageId::NotInVoiceChannel));
            (VoiceStage::Done, actions)
        },
        Some(c) => {
            actions.push(VoiceAction::CheckManager);
            (VoiceStage::JoinAwaitManager { guild_id, voice_channel: c, text_channel }, actions)
        },
    }
}

/// `leave`: the voice manager is checked first.
pub fn leave_start(guild_id: u64) -> (r: (VoiceStage, Vec<VoiceAction>))
    ensures
        r.0 == (VoiceStage::LeaveAwaitManager { guild_id }),
        r.1@ == seq![VoiceAction::CheckManager],
{
    let mut actions: Vec<VoiceAction> = Vec::new();
    actions.push(VoiceAction::CheckManager);
    (VoiceStage::LeaveAwaitManager { guild_id }, actions)
}

/// What one step of a voice command does.
pub open spec fn voice_step_spec(stage: VoiceStage, event: VoiceEvent) -> (VoiceStage, Seq<VoiceAction>) {
    match (stage, event) {
        (VoiceStage::JoinAwaitManager { guild_id, voice_channel, text_channel }, VoiceEvent::Manager(ok)) =>
            if ok {
                (VoiceStage::JoinAwaitConnect { guild_id, text_channel },
                 seq![VoiceAction::Connect { guild_id, channel_id: voice_channel }])
            } else {
                (VoiceStage::Done, seq![VoiceAction::Reply(MessageId::UnexpectedError)])
            },
        (VoiceStage::JoinAwaitConnect { guild_id, text_channel }, VoiceEvent::Connected(ok)) => {
            let done = seq![VoiceAction::Reply(MessageId::Joined),
                VoiceAction::StoreJoinedChannel { guild_id, channel_id: text_channel }];
            if ok {
                (VoiceStage::Done, done)
            } else {
                (VoiceStage::Done, seq![VoiceAction::Reply(MessageId::JoinFailed)] + done)
            }
        },
        (VoiceStage::LeaveAwaitManager { guild_id }, VoiceEvent::Manager(ok)) =>
            if ok {
                (VoiceStage::LeaveAwaitCall { guild_id }, seq![VoiceAction::CheckCall { guild_id }])
            } else {
                (VoiceStage::Done, seq![VoiceAction::Reply(MessageId::UnexpectedError)])
            },
        (VoiceStage::LeaveAwaitCall { guild_id }, VoiceEvent::InCall(present)) =>
            if present {
                (VoiceStage::LeaveAwaitDisconnect { guild_id }, seq![VoiceAction::Disconnect { guild_id }])
            } else {
                (VoiceStage::Done, seq![VoiceAction::Reply(MessageId::NotInVoiceChannel),
                    VoiceAction::Reply(MessageId::LeftVoiceChannel)])
            },
        (VoiceStage::LeaveAwaitDisconnect { guild_id }, VoiceEvent::Disconnected(ok)) =>
            if ok {
                (VoiceStage::Done, seq![VoiceAction::Reply(MessageId::LeftVoiceChannel)])
            } else {
                (VoiceStage::Done, seq![VoiceAction::Reply(MessageId::LeaveFailed),
                    VoiceAction::Reply(MessageId::LeftVoiceChannel)])
            },
        _ => (VoiceStage::Done, Seq::<VoiceAction>::empty()),
    }
}

/// Advances a voice command with the report `event`.
pub fn voice_step(stage: VoiceStage, event: VoiceEvent) -> (r: (VoiceStage, Vec<VoiceAction>))
    ensures
        (r.0, r.1@) == voice_step_spec(stage, event),
{
    let mut a: Vec<VoiceAction> = Vec::new();
    let next = match (stage, event) {
        (VoiceStage::JoinAwaitManager { guild_id, voice_channel, text_channel }, VoiceEvent::Manager(ok)) => {
            if ok {
                a.push(VoiceAction::Connect { guild_id, channel_id: voice_channel });
                VoiceStage::JoinAwaitConnect { guild_id, text_channel }
            } else {
                a.push(VoiceAction::Reply(MessageId::UnexpectedError));
                VoiceStage::Done
            }
        },
        (VoiceStage::JoinAwaitConnect { guild_id, text_channel }, VoiceEvent::Connected(ok)) => {
            if !ok {
                a.push(VoiceAction::Reply(MessageId::JoinFailed));
            }
            a.push(VoiceAction::Reply(MessageId::Joined));
            a.push(VoiceAction::StoreJoinedChannel { guild_id, channel_id: text_channel });
            VoiceStage::Done
        },
        (VoiceStage::LeaveAwaitManager { guild_id }, VoiceEvent::Manager(ok)) => {
            if ok {
                a.push(VoiceAction::CheckCall { guild_id });
                VoiceStage::LeaveAwaitCall { guild_id }
            } else {
                a.push(VoiceAction::Reply(MessageId::UnexpectedError));
                VoiceStage::Done
            }
        },
        (VoiceStage::LeaveAwaitCall { guild_id }, VoiceEvent::InCall(present)) => {
            if present {
                a.push(VoiceAction::Disconnect { guild_id });
                VoiceStage::LeaveAwaitDisconnect { guild_id }
            } else {
                a.push(VoiceAction::Reply(MessageId::NotInVoiceChannel));
                a.push(VoiceAction::Reply(MessageId::LeftVoiceChannel));
                VoiceStage::Done
            }
        },
        (VoiceStage::LeaveAwaitDisconnect { guild_id }, VoiceEvent::Disconnected(ok)) => {
            if !ok {
                a.push(VoiceAction::Reply(MessageId::LeaveFailed));
            }
            a.push(VoiceAction::Reply(MessageId::LeftVoiceChannel));
            VoiceStage::Done
        },
        _ => VoiceStage::Done,
    };
    proof {
        let s = voice_step_spec(stage, event);
        assert(a@ =~= s.1);
    }
    (next, a)
}

} // verus!
