//! Handling of guild messages: which ones are read aloud, and the sequence
//! of lookups, synthesis and playback that reading one aloud takes.

use vstd::prelude::*;

use crate::gcp::GcpTts;
use crate::pattern::{regex_is_match, regex_matches, regex_valid};
use crate::text::{append_decimal, decimal, has_prefix, replace, replaced, starts_with};
use crate::tts::{gcp_engine_for_model, is_gcp_engine, model_named, model_voice};

verus! {

/// The key under which the text channel a guild's voice session reads is
/// stored: `bot:channel:joined:<guild id>`.
pub open spec fn joined_channel_key(guild_id: nat) -> Seq<char> {
    "bot:channel:joined:"@ + decimal(guild_id)
}

/// The key of the joined text channel of `guild_id`.
pub fn joined_channel_key_of(guild_id: u64) -> (k: String)
    ensures
        k@ == joined_channel_key(guild_id as nat),
{
    let mut k = String::from_str("bot:channel:joined:");
    append_decimal(&mut k, guild_id as u128);
    k
}

/// The pattern of messages that echo a slash command (`</name:id>` with an
/// 18 to 20 digit id at the start).
pub open spec fn command_echo_pattern() -> Seq<char> {
    "^<.+?:\\d{18,20}>"@
}

/// Whether the content echoes a slash command.
pub open spec fn is_command_echo(content: Seq<char>) -> bool {
    regex_valid(command_echo_pattern()) && regex_matches(command_echo_pattern(), content)
}

/// The text read aloud for a message: its content with every line break
/// replaced by a full-width full stop.
pub open spec fn speech_of(content: Seq<char>) -> Seq<char> {
    replaced(content, "\n"@, "\u{ff0e}"@)
}

/// A message as the handler sees it.
pub struct IncomingMessage {
    pub author_is_bot: bool,
    pub content: String,
    pub channel_id: u64,
}

/// Whether a message is a candidate for reading aloud: not from a bot, and
/// not a prefixed command.
pub open spec fn is_candidate(m: IncomingMessage) -> bool {
    !m.author_is_bot && !has_prefix(m.content@, "z."@)
}

/// Where the handling of one message stands.
#[derive(Clone, Copy, Debug, PartialEq, Eq, Structural)]
pub enum SpeechStage {
    AwaitVoiceState,
    AwaitJoinedChannel { guild_id: u64 },
    AwaitVoiceManager { guild_id: u64 },
    AwaitVoiceModel { guild_id: u64 },
    AwaitSpeech { guild_id: u64 },
    Finished,
}

/// What the surroundings report back.
pub enum SpeechEvent {
    /// The message's guild, if cached, and whether the bot is in one of its
    /// voice channels.
    VoiceState { guild_id: Option<u64>, bot_in_voice: bool },
    /// The joined text channel read from the store; nothing when none is
    /// stored or the read failed.
    JoinedChannel(Option<u64>),
    /// Whether the voice manager is available.
    VoiceManager(bool),
    /// The guild's stored voice model (nothing when the record could not be
    /// read) and the current access token.
    VoiceModel { model: Option<String>, token: String },
    /// The path of the synthesised audio; nothing when synthesis failed.
    SpeechSaved(Option<String>),
}

/// What to do next.
pub enum SpeechAction {
    /// Stop handling the message.
    Ignore,
    /// Look up the message's guild and the bot's voice state there.
    CheckVoiceState,
    /// Read the joined text channel stored under `key`.
    FetchJoinedChannel { key: String },
    /// Check that the voice manager is available.
    CheckVoiceManager,
    /// Read the voice model stored for the guild.
    FetchVoiceModel { guild_id: u64 },
    /// Synthesise `text` with `engine`.
    Synthesize { engine: GcpTts, text: String },
    /// Queue the audio at `path` in the guild's call and delete it when done.
    Play { guild_id: u64, path: String },
}

/// The handling of one message: the message and the stage reached.
pub struct SpeechFlow {
    pub message: IncomingMessage,
    pub stage: SpeechStage,
}

/// Whether a step stopped the handling.
pub open spec fn stopped(r: (SpeechFlow, SpeechAction)) -> bool {
    r.0.stage is Finished && r.1 is Ignore
}

/// Whether `event` is the report the stage waits for.
pub open spec fn awaited(stage: SpeechStage, event: SpeechEvent) -> bool {
    match stage {
        SpeechStage::AwaitVoiceState => event is VoiceState,
        SpeechStage::AwaitJoinedChannel { .. } => event is JoinedChannel,
        SpeechStage::AwaitVoiceManager { .. } => event is VoiceManager,
        SpeechStage::AwaitVoiceModel { .. } => event is VoiceModel,
        SpeechStage::AwaitSpeech { .. } => event is SpeechSaved,
        SpeechStage::Finished => false,
    }
}

proof fn lemma_no_line_break(s: Seq<char>, r: Seq<char>)
    requires
        forall|i: int| 0 <= i < r.len() ==> r[i] != '\n',
    ensures
        forall|i: int| 0 <= i < replaced(s, seq!['\n'], r).len() ==> replaced(s, seq!['\n'], r)[i] != '\n',
    decreases s.len(),
{
    let p = seq!['\n'];
    if s.len() < 1 {
    } else if s.take(1) == p {
        lemma_no_line_break(s.skip(1), r);
        let t = replaced(s.skip(1), p, r);
        assert(replaced(s, p, r) == r + t);
        assert forall|i: int| 0 <= i < (r + t).len() implies (r + t)[i] != '\n' by {
            if i >= r.len() { assert((r + t)[i] == t[i - r.len()]); }
        }
    } else {
        lemma_no_line_break(s.skip(1), r);
        let t = replaced(s.skip(1), p, r);
        assert(s[0] != '\n') by {
            if s[0] == '\n' { assert(s.take(1) =~= p); }
        }
        assert forall|i: int| 0 <= i < (seq![s[0]] + t).len() implies (seq![s[0]] + t)[i] != '\n' by {
            if i >= 1 { assert((seq![s[0]] + t)[i] == t[i - 1]); }
        }
    }
}

/// What one step does, stage by stage: the voice-state check goes on to the
/// joined-channel lookup only when the guild is known and the bot is in
/// voice; the joined-channel check goes on only when the message was posted
/// in the stored joined channel and does not echo a slash command; the voice manager must be available;
/// a stored voice model that names a voice gives the synthesis of the
/// message's speech text with that voice and the token; a saved file is
/// played. Every other report stops the handling.
pub open spec fn step_holds(stage: SpeechStage, message: IncomingMessage, event: SpeechEvent, r: (SpeechFlow, SpeechAction)) -> bool {
    match (stage, event) {
        (SpeechStage::AwaitVoiceState, SpeechEvent::VoiceState { guild_id: g, bot_in_voice: b }) => {
            if b && g is Some {
                &&& r.0.stage == SpeechStage::AwaitJoinedChannel { guild_id: g->0 }
                &&& r.1 is FetchJoinedChannel
                &&& r.1->key@ == joined_channel_key(g->0 as nat)
            } else {
                stopped(r)
            }
        },
        (SpeechStage::AwaitJoinedChannel { guild_id: g }, SpeechEvent::JoinedChannel(c)) => {
            if c != Some(message.channel_id) || is_command_echo(message.content@) {
                stopped(r)
            } else {
                r.0.stage == SpeechStage::AwaitVoiceManager { guild_id: g } && r.1 is CheckVoiceManager
            }
        },
        (SpeechStage::AwaitVoiceManager { guild_id: g }, SpeechEvent::VoiceManager(ok)) => {
            if ok {
                &&& r.0.stage == SpeechStage::AwaitVoiceModel { guild_id: g }
                &&& r.1 is FetchVoiceModel
                &&& r.1->FetchVoiceModel_guild_id == g
            } else {
                stopped(r)
            }
        },
        (SpeechStage::AwaitVoiceModel { guild_id: g }, SpeechEvent::VoiceModel { model: m, token: k }) => {
            if m is Some && model_named(m->0@) is Some {
                let vm = model_named(m->0@)->0;
                &&& r.0.stage == SpeechStage::AwaitSpeech { guild_id: g }
                &&& r.1 is Synthesize
                &&& is_gcp_engine(r.1->engine, k@, model_voice(vm).0, model_voice(vm).1)
                &&& r.1->text@ == speech_of(message.content@)
            } else {
                stopped(r)
            }
        },
        (SpeechStage::AwaitSpeech { guild_id: g }, SpeechEvent::SpeechSaved(p)) => {
            if p is Some {
                &&& r.0.stage is Finished
                &&& r.1 is Play
                &&& r.1->Play_guild_id == g
                &&& r.1->path == p->0
            } else {
                stopped(r)
            }
        },
        _ => stopped(r),
    }
}

/// One step of a run on `message`: what `SpeechFlow::step` promises of the
/// handling `after` that it gives from `before` on the report `event`.
pub open spec fn step_taken(message: IncomingMessage, before: (SpeechFlow, SpeechAction), event: SpeechEvent, after: (SpeechFlow, SpeechAction)) -> bool {
    &&& after.0.message == message
    &&& (!awaited(before.0.stage, event) ==> stopped(after))
    &&& step_holds(before.0.stage, message, event, after)
}

/// Whether `flows` is a run on `message` with the reports `events`:
/// `flows[0]` is what `SpeechFlow::start` gives, and each next handling is
/// what `SpeechFlow::step` gives on the next report.
pub open spec fn is_speech_run(message: IncomingMessage, events: Seq<SpeechEvent>, flows: Seq<(SpeechFlow, SpeechAction)>) -> bool {
    &&& flows.len() == events.len() + 1
    &&& flows[0].0.message == message
    &&& is_candidate(message) ==> flows[0].0.stage is AwaitVoiceState && flows[0].1 is CheckVoiceState
    &&& !is_candidate(message) ==> stopped(flows[0])
    &&& forall|i: int| 0 <= i < events.len() ==> #[trigger] step_taken(message, flows[i], events[i], flows[i + 1])
}

/// Whether an action plays audio.
pub open spec fn plays(a: SpeechAction) -> bool {
    a is Play
}

/// Whether the reports read `message` aloud: it is not from a bot and not a
/// prefixed command; its guild is cached and the bot is in voice there; it
/// was posted in the stored joined channel and does not echo a slash
/// command; the voice manager is available; the guild's stored voice model
/// names a voice; and the synthesised audio was saved.
pub open spec fn reads_aloud(message: IncomingMessage, events: Seq<SpeechEvent>) -> bool {
    &&& is_candidate(message)
    &&& events.len() >= 5
    &&& events[0] matches SpeechEvent::VoiceState { guild_id: Some(_), bot_in_voice: true }
    &&& events[1] == SpeechEvent::JoinedChannel(Some(message.channel_id))
    &&& !is_command_echo(message.content@)
    &&& events[2] == SpeechEvent::VoiceManager(true)
    &&& events[3] matches SpeechEvent::VoiceModel { model: Some(m), .. } && model_named(m@) is Some
    &&& events[4] matches SpeechEvent::SpeechSaved(Some(_))
}

impl SpeechFlow {
    /// Starts handling `message`: a candidate goes on to the voice-state
    /// check, anything else is ignored.
    pub fn start(message: IncomingMessage) -> (r: (SpeechFlow, SpeechAction))
        ensures
            r.0.message == message,
            is_candidate(message) ==> r.0.stage is AwaitVoiceState && r.1 is CheckVoiceState,
            !is_candidate(message) ==> stopped(r),
    {
        proof {
            reveal_strlit("z.");
        }
        let skip = message.author_is_bot || starts_with(message.content.as_str(), "z.");
        if skip {
            (SpeechFlow { message, stage: SpeechStage::Finished }, SpeechAction::Ignore)
        } else {
            (SpeechFlow { message, stage: SpeechStage::AwaitVoiceState }, SpeechAction::CheckVoiceState)
        }
    }

    /// Advances the handling with the report `event`.
    pub fn step(self, event: SpeechEvent) -> (r: (SpeechFlow, SpeechAction))
        ensures
            r.0.message == self.message,
            !awaited(self.stage, event) ==> stopped(r),
            step_holds(self.stage, self.message, event, r),
            r.1 is Synthesize ==> forall|i: int| 0 <= i < r.1->text@.len() ==> r.1->text@[i] != '\n',
    {
        let message = self.message;
        match (self.stage, event) {
            (SpeechStage::AwaitVoiceState, SpeechEvent::VoiceState { guild_id: Some(g), bot_in_voice: true }) => {
                let key = joined_channel_key_of(g);
                (SpeechFlow { message, stage: SpeechStage::AwaitJoinedChannel { guild_id: g } }, SpeechAction::FetchJoinedChannel { key })
            },
            (SpeechStage::AwaitJoinedChannel { guild_id: g }, SpeechEvent::JoinedChannel(c)) => {
                let elsewhere = match c {
                    Some(v) => v != message.channel_id,
                    None => true,
                };
                if elsewhere {
                    return (SpeechFlow { message, stage: SpeechStage::Finished }, SpeechAction::Ignore);
                }
                let echo = regex_is_match("^<.+?:\\d{18,20}>", message.content.as_str());
                let is_echo = match echo {
                    Some(true) => true,
                    _ => false,
                };
                if is_echo {
                    (SpeechFlow { message, stage: SpeechStage::Finished }, SpeechAction::Ignore)
                } else {
                    (SpeechFlow { message, stage: SpeechStage::AwaitVoiceManager { guild_id: g } }, SpeechAction::CheckVoiceManager)
                }
            },
            (SpeechStage::AwaitVoiceManager { guild_id: g }, SpeechEvent::VoiceManager(true)) => {
                (SpeechFlow { message, stage: SpeechStage::AwaitVoiceModel { guild_id: g } }, SpeechAction::FetchVoiceModel { guild_id: g })
            },
            (SpeechStage::AwaitVoiceModel { guild_id: g }, SpeechEvent::VoiceModel { model: Some(name), token }) => {
                match gcp_engine_for_model(name.as_str(), token) {
                    Some(engine) => {
                        proof {
                            reveal_strlit("\n");
                            reveal_strlit("\u{ff0e}");
                            lemma_no_line_break(message.content@, "\u{ff0e}"@);
                            assert("\n"@ =~= seq!['\n']);
                        }
                        let text = replace(message.content.as_str(), "\n", "\u{ff0e}");
                        (SpeechFlow { message, stage: SpeechStage::AwaitSpeech { guild_id: g } }, SpeechAction::Synthesize { engine, text })
                    },
                    None => (SpeechFlow { message, stage: SpeechStage::Finished }, SpeechAction::Ignore),
                }
            },
            (SpeechStage::AwaitSpeech { guild_id: g }, SpeechEvent::SpeechSaved(Some(path))) => {
                (SpeechFlow { message, stage: SpeechStage::Finished }, SpeechAction::Play { guild_id: g, path })
            },
            _ => (SpeechFlow { message, stage: SpeechStage::Finished }, SpeechAction::Ignore),
        }
    }
}

} // verus!
