//! Properties that tie several parts of the bot together.

use vstd::prelude::*;

use crate::commands::{voice_step_spec, MessageId, VoiceAction, VoiceEvent, VoiceStage};
use crate::gcp::{bearer_stripped, voice_name, GcpTts, VoiceTier, VoiceVariant};
use crate::renewer::{renew_step_spec, RenewAction, RenewEvent, RenewStage, MAX_ATTEMPTS};
use crate::handler::{
    is_candidate, is_command_echo, is_speech_run, joined_channel_key, plays, reads_aloud, speech_of,
    step_taken, IncomingMessage, SpeechAction, SpeechEvent, SpeechFlow, SpeechStage,
};
use crate::i18n::{lang_of, Lang};
use crate::text::{
    decimal, digit_char, digits_value, has_prefix, is_digit, is_white_space, occurs_at, parsed_u64,
    replaced, trimmed, trimmed_end, trimmed_start, unsigned_body,
};
use crate::tts::{
    gcp_voice_of, is_gcp_engine, ja_voice, lemma_model_name_round_trip, model_name, model_named, model_of,
    model_voice, voice_models, TtsType, VoiceModel,
};

verus! {

proof fn lemma_digit_char(d: int)
    requires
        0 <= d < 10,
    ensures
        is_digit(digit_char(d)),
        (digit_char(d) as u32) - ('0' as u32) == d,
{
}

/// The decimal representation of `n` is a nonempty string of digits whose
/// value is `n`.
proof fn lemma_decimal_value(n: nat)
    ensures
        decimal(n).len() > 0,
        forall|i: int| 0 <= i < decimal(n).len() ==> is_digit(#[trigger] decimal(n)[i]),
        digits_value(decimal(n)) == n,
    decreases n,
{
    lemma_digit_char((n % 10) as int);
    if n >= 10 {
        lemma_decimal_value(n / 10);
        let s = decimal(n);
        assert(s.drop_last() =~= decimal(n / 10));
        assert forall|i: int| 0 <= i < s.len() implies is_digit(#[trigger] s[i]) by {
            if i < s.len() - 1 {
                assert(s[i] == decimal(n / 10)[i]);
            }
        }
        assert(s.last() == digit_char((n % 10) as int));
        assert(digits_value(s) == digits_value(decimal(n / 10)) * 10 + (n % 10));
        assert((n / 10) * 10 + n % 10 == n) by (nonlinear_arith);
    } else {
        let s = decimal(n);
        assert(s.drop_last() =~= Seq::<char>::empty());
        assert(s.last() == digit_char(n as int));
        assert(digits_value(Seq::<char>::empty()) == 0);
        assert(digits_value(s.drop_last()) == 0);
        lemma_digit_char(n as int);
        assert(digits_value(s) == n);
    }
}

/// Parsing the decimal representation of a number gives the number back.
pub proof fn lemma_parse_decimal_round_trip(n: u64)
    ensures
        parsed_u64(decimal(n as nat)) == Some(n),
{
    lemma_decimal_value(n as nat);
    let s = decimal(n as nat);
    assert(is_digit(s[0]));
    assert(unsigned_body(s) == s);
}

/// Distinct numbers have distinct decimal representations.
pub proof fn lemma_decimal_injective(a: nat, b: nat)
    requires
        a != b,
    ensures
        decimal(a) != decimal(b),
{
    lemma_decimal_value(a);
    lemma_decimal_value(b);
}

/// Distinct guilds keep their joined text channels under distinct keys.
pub proof fn lemma_joined_keys_distinct(g1: nat, g2: nat)
    requires
        g1 != g2,
    ensures
        joined_channel_key(g1) != joined_channel_key(g2),
{
    lemma_decimal_injective(g1, g2);
    let p = "bot:channel:joined:"@;
    if joined_channel_key(g1) == joined_channel_key(g2) {
        assert(decimal(g1) =~= joined_channel_key(g1).skip(p.len() as int));
        assert(decimal(g2) =~= joined_channel_key(g2).skip(p.len() as int));
    }
}

/// Every voice the `voice` command offers is a model name that selects that
/// very voice when a message is read aloud.
pub proof fn lemma_offered_voices_are_spoken(i: int)
    requires
        0 <= i < 8,
    ensures
        model_named(model_name(voice_models()[i])) == Some(voice_models()[i]),
{
    lemma_model_name_round_trip(voice_models()[i]);
}

/// A guild the bot meets is given a voice model that selects a voice.
pub proof fn lemma_default_voice_is_spoken()
    ensures
        model_named("JP-Female-Normal-A"@) == Some(VoiceModel::FemaleNormalA),
{
    lemma_model_name_round_trip(VoiceModel::FemaleNormalA);
}

/// The two languages the `lang` command offers select Japanese and English.
pub proof fn lemma_offered_languages()
    ensures
        lang_of("ja-JP"@) == Lang::JaJp,
        lang_of("en-US"@) == Lang::EnUs,
{
    reveal_strlit("ja-JP");
    reveal_strlit("en-US");
    reveal_strlit("j");
    reveal_strlit("e");
    assert("en-US"@ != "j"@) by { assert("en-US"@.len() != "j"@.len()); }
    assert("en-US"@ != "ja-JP"@) by { assert("en-US"@[0] != "ja-JP"@[0]); }
}


proof fn lemma_replace_absent(t: Seq<char>, p: Seq<char>, r: Seq<char>)
    requires
        p.len() > 0,
        forall|i: int| !occurs_at(t, i, p),
    ensures
        replaced(t, p, r) == t,
    decreases t.len(),
{
    if t.len() >= p.len() {
        assert(!occurs_at(t, 0, p));
        assert(t.take(p.len() as int) =~= t.subrange(0, p.len() as int));
        let u = t.skip(1);
        assert forall|i: int| !occurs_at(u, i, p) by {
            if occurs_at(u, i, p) {
                assert(t.subrange(i + 1, i + 1 + p.len()) =~= u.subrange(i, i + p.len()));
                assert(occurs_at(t, i + 1, p));
            }
        }
        lemma_replace_absent(u, p, r);
        assert(seq![t[0]] + u =~= t);
    }
}

/// A credential the API builds from an access token (`Bearer <token>`),
/// configured as a speech engine's token, is sent as the token itself, for
/// tokens that end in a non-space character and do not contain `Bearer `.
pub proof fn lemma_bearer_round_trip(t: Seq<char>)
    requires
        t.len() > 0,
        !is_white_space(t.last()),
        forall|i: int| !occurs_at(t, i, "Bearer "@),
    ensures
        bearer_stripped("Bearer "@ + t) == t,
{
    reveal_strlit("Bearer ");
    let p = "Bearer "@;
    let c = p + t;
    assert(c[0] == 'B');
    assert(!is_white_space(c[0]));
    assert(trimmed_start(c) == c);
    assert(c.last() == t.last());
    assert(trimmed_end(c) == c);
    assert(trimmed(c) == c);
    assert(c.subrange(0, p.len() as int) =~= p);
    assert(has_prefix(trimmed(c), p));
    assert(c.take(p.len() as int) =~= p);
    assert(c.skip(p.len() as int) =~= t);
    lemma_replace_absent(t, p, Seq::<char>::empty());
    assert(replaced(c, p, Seq::<char>::empty()) == Seq::<char>::empty() + replaced(t, p, Seq::<char>::empty()));
    assert(Seq::<char>::empty() + t =~= t);
}

/// The stage a run has reached after `n` good reports.
spec fn chain_stage(events: Seq<SpeechEvent>, n: int) -> SpeechStage {
    let g = events[0]->guild_id->0;
    if n == 0 {
        SpeechStage::AwaitVoiceState
    } else if n == 1 {
        SpeechStage::AwaitJoinedChannel { guild_id: g }
    } else if n == 2 {
        SpeechStage::AwaitVoiceManager { guild_id: g }
    } else if n == 3 {
        SpeechStage::AwaitVoiceModel { guild_id: g }
    } else if n == 4 {
        SpeechStage::AwaitSpeech { guild_id: g }
    } else {
        SpeechStage::Finished
    }
}

/// Whether the first `n` reports (at most five) are the ones that go on.
spec fn good_prefix(message: IncomingMessage, events: Seq<SpeechEvent>, n: int) -> bool {
    &&& is_candidate(message)
    &&& 0 <= n <= 5
    &&& n <= events.len()
    &&& n >= 1 ==> (events[0] is VoiceState && events[0]->guild_id is Some && events[0]->bot_in_voice)
    &&& n >= 2 ==> events[1] == SpeechEvent::JoinedChannel(Some(message.channel_id)) && !is_command_echo(message.content@)
    &&& n >= 3 ==> events[2] == SpeechEvent::VoiceManager(true)
    &&& n >= 4 ==> (events[3] is VoiceModel && events[3]->model is Some && model_named(events[3]->model->0@) is Some)
    &&& n >= 5 ==> (events[4] is SpeechSaved && events[4]->0 is Some)
}

spec fn run_inv(message: IncomingMessage, events: Seq<SpeechEvent>, flows: Seq<(SpeechFlow, SpeechAction)>, n: int) -> bool {
    if good_prefix(message, events, n) {
        &&& flows[n].0.stage == chain_stage(events, n)
        &&& n < 5 ==> !plays(flows[n].1)
        &&& n == 4 ==> (flows[n].1 is Synthesize && flows[n].1->text@ == speech_of(message.content@))
        &&& n == 5 ==> (flows[n].1 is Play && flows[n].1->Play_guild_id == events[0]->guild_id->0
            && flows[n].1->path == events[4]->0->0)
    } else {
        flows[n].0.stage is Finished && flows[n].1 is Ignore
    }
}

proof fn lemma_run_prefix(message: IncomingMessage, events: Seq<SpeechEvent>, flows: Seq<(SpeechFlow, SpeechAction)>, n: int)
    requires
        is_speech_run(message, events, flows),
        0 <= n <= events.len(),
    ensures
        run_inv(message, events, flows, n),
    decreases n,
{
    if n > 0 {
        let i = n - 1;
        lemma_run_prefix(message, events, flows, i);
        assert(step_taken(message, flows[i], events[i], flows[i + 1]));
    }
}

/// A message is read aloud exactly when the reports say so: a run of the
/// message handling plays audio if and only if the message is not from a
/// bot and not a prefixed command, its guild is cached with the bot in
/// voice, it was posted in the stored joined channel and does not echo a
/// slash command, the voice manager is available, the guild's voice model
/// names a voice and the audio was saved. Then the message's speech text is
/// synthesised and the saved file is played in its guild.
pub proof fn lemma_read_aloud_run(message: IncomingMessage, events: Seq<SpeechEvent>, flows: Seq<(SpeechFlow, SpeechAction)>)
    requires
        is_speech_run(message, events, flows),
    ensures
        (exists|i: int| 0 <= i < flows.len() && #[trigger] plays(flows[i].1)) <==> reads_aloud(message, events),
        reads_aloud(message, events) ==> {
            &&& flows[4].1 is Synthesize
            &&& flows[4].1->text@ == speech_of(message.content@)
            &&& flows[5].1 is Play
            &&& flows[5].1->Play_guild_id == events[0]->guild_id->0
            &&& flows[5].1->path == events[4]->0->0
        },
{
    if reads_aloud(message, events) {
        assert(good_prefix(message, events, 5));
        lemma_run_prefix(message, events, flows, 4);
        lemma_run_prefix(message, events, flows, 5);
        assert(plays(flows[5].1));
    }
    assert forall|i: int| 0 <= i < flows.len() && #[trigger] plays(flows[i].1) implies reads_aloud(message, events) by {
        lemma_run_prefix(message, events, flows, i);
        if !good_prefix(message, events, i) {
            assert(flows[i].1 is Ignore);
        }
    }
}

proof fn lemma_ja_voice_names()
    ensures
        voice_name(ja_voice(VoiceTier::Standard, VoiceVariant::A)) == "ja-JP-Standard-A"@,
        voice_name(ja_voice(VoiceTier::Standard, VoiceVariant::B)) == "ja-JP-Standard-B"@,
        voice_name(ja_voice(VoiceTier::Wavenet, VoiceVariant::A)) == "ja-JP-Wavenet-A"@,
        voice_name(ja_voice(VoiceTier::Wavenet, VoiceVariant::B)) == "ja-JP-Wavenet-B"@,
        voice_name(ja_voice(VoiceTier::Standard, VoiceVariant::C)) == "ja-JP-Standard-C"@,
        voice_name(ja_voice(VoiceTier::Standard, VoiceVariant::D)) == "ja-JP-Standard-D"@,
        voice_name(ja_voice(VoiceTier::Wavenet, VoiceVariant::C)) == "ja-JP-Wavenet-C"@,
        voice_name(ja_voice(VoiceTier::Wavenet, VoiceVariant::D)) == "ja-JP-Wavenet-D"@,
{
    reveal_strlit("ja-JP");
    reveal_strlit("-Standard-");
    reveal_strlit("-Wavenet-");
    reveal_strlit("A");
    reveal_strlit("B");
    reveal_strlit("C");
    reveal_strlit("D");
    reveal_strlit("ja-JP-Standard-A");
    reveal_strlit("ja-JP-Standard-B");
    reveal_strlit("ja-JP-Wavenet-A");
    reveal_strlit("ja-JP-Wavenet-B");
    reveal_strlit("ja-JP-Standard-C");
    reveal_strlit("ja-JP-Standard-D");
    reveal_strlit("ja-JP-Wavenet-C");
    reveal_strlit("ja-JP-Wavenet-D");
    assert(voice_name(ja_voice(VoiceTier::Standard, VoiceVariant::A)) =~= "ja-JP-Standard-A"@);
    assert(voice_name(ja_voice(VoiceTier::Standard, VoiceVariant::B)) =~= "ja-JP-Standard-B"@);
    assert(voice_name(ja_voice(VoiceTier::Wavenet, VoiceVariant::A)) =~= "ja-JP-Wavenet-A"@);
    assert(voice_name(ja_voice(VoiceTier::Wavenet, VoiceVariant::B)) =~= "ja-JP-Wavenet-B"@);
    assert(voice_name(ja_voice(VoiceTier::Standard, VoiceVariant::C)) =~= "ja-JP-Standard-C"@);
    assert(voice_name(ja_voice(VoiceTier::Standard, VoiceVariant::D)) =~= "ja-JP-Standard-D"@);
    assert(voice_name(ja_voice(VoiceTier::Wavenet, VoiceVariant::C)) =~= "ja-JP-Wavenet-C"@);
    assert(voice_name(ja_voice(VoiceTier::Wavenet, VoiceVariant::D)) =~= "ja-JP-Wavenet-D"@);
}

/// The voice a guild's stored model name reads with, as a fixed table: an
/// engine that meets the reading contract for a model name speaks Japanese
/// with the token it was given, and the Normal models use the Standard
/// voices A, B (female) and C, D (male), the Premium models the Wavenet
/// voices with the same letters.
pub proof fn lemma_model_voice_table(name: Seq<char>, token: Seq<char>, e: GcpTts)
    requires
        model_named(name) is Some,
        is_gcp_engine(e, token, model_voice(model_named(name)->0).0, model_voice(model_named(name)->0).1),
    ensures
        e.config.voice.language_code@ == "ja-JP"@,
        e.config.access_token@ == token,
        e.config.audio_config.audio_encoding@ == "MP3"@,
        name == "JP-Female-Normal-A"@ ==> (e.config.voice.name@ == "ja-JP-Standard-A"@ && e.config.voice.ssml_gender@ == "FEMALE"@),
        name == "JP-Female-Normal-B"@ ==> (e.config.voice.name@ == "ja-JP-Standard-B"@ && e.config.voice.ssml_gender@ == "FEMALE"@),
        name == "JP-Female-Premium-A"@ ==> (e.config.voice.name@ == "ja-JP-Wavenet-A"@ && e.config.voice.ssml_gender@ == "FEMALE"@),
        name == "JP-Female-Premium-B"@ ==> (e.config.voice.name@ == "ja-JP-Wavenet-B"@ && e.config.voice.ssml_gender@ == "FEMALE"@),
        name == "JP-Male-Normal-A"@ ==> (e.config.voice.name@ == "ja-JP-Standard-C"@ && e.config.voice.ssml_gender@ == "MALE"@),
        name == "JP-Male-Normal-B"@ ==> (e.config.voice.name@ == "ja-JP-Standard-D"@ && e.config.voice.ssml_gender@ == "MALE"@),
        name == "JP-Male-Premium-A"@ ==> (e.config.voice.name@ == "ja-JP-Wavenet-C"@ && e.config.voice.ssml_gender@ == "MALE"@),
        name == "JP-Male-Premium-B"@ ==> (e.config.voice.name@ == "ja-JP-Wavenet-D"@ && e.config.voice.ssml_gender@ == "MALE"@),
{
    lemma_ja_voice_names();
    reveal_strlit("ja-JP");
    reveal_strlit("MALE");
    reveal_strlit("FEMALE");
    lemma_model_name_round_trip(VoiceModel::FemaleNormalA);
    lemma_model_name_round_trip(VoiceModel::FemaleNormalB);
    lemma_model_name_round_trip(VoiceModel::FemalePremiumA);
    lemma_model_name_round_trip(VoiceModel::FemalePremiumB);
    lemma_model_name_round_trip(VoiceModel::MaleNormalA);
    lemma_model_name_round_trip(VoiceModel::MaleNormalB);
    lemma_model_name_round_trip(VoiceModel::MalePremiumA);
    lemma_model_name_round_trip(VoiceModel::MalePremiumB);
}

/// Reading a message aloud uses the voice that the engine builder gives for
/// the guild's voice choice: for every cloud choice, the builder's voice and
/// gender are the model's.
pub proof fn lemma_reading_voice_is_built_voice(t: TtsType)
    requires
        model_of(t) is Some,
    ensures
        gcp_voice_of(t) == Some(model_voice(model_of(t)->0)),
{
}

/// A join asks to connect to exactly the author's voice channel, in the
/// command's guild, once the voice manager is available; once connected (or
/// not), it stores the command's text channel as the guild's joined channel.
pub proof fn lemma_join_connects_to_authors_channel(guild_id: u64, voice_channel: u64, text_channel: u64)
    ensures
        voice_step_spec(VoiceStage::JoinAwaitManager { guild_id, voice_channel, text_channel }, VoiceEvent::Manager(true))
            == (VoiceStage::JoinAwaitConnect { guild_id, text_channel },
                seq![VoiceAction::Connect { guild_id, channel_id: voice_channel }]),
        voice_step_spec(VoiceStage::JoinAwaitConnect { guild_id, text_channel }, VoiceEvent::Connected(true)).1
            == seq![VoiceAction::Reply(MessageId::Joined),
                VoiceAction::StoreJoinedChannel { guild_id, channel_id: text_channel }],
{
}

/// A leave disconnects the call of exactly the command's guild, when the bot
/// has one there.
pub proof fn lemma_leave_disconnects_own_guild(guild_id: u64)
    ensures
        voice_step_spec(VoiceStage::LeaveAwaitManager { guild_id }, VoiceEvent::Manager(true))
            == (VoiceStage::LeaveAwaitCall { guild_id }, seq![VoiceAction::CheckCall { guild_id }]),
        voice_step_spec(VoiceStage::LeaveAwaitCall { guild_id }, VoiceEvent::InCall(true))
            == (VoiceStage::LeaveAwaitDisconnect { guild_id }, seq![VoiceAction::Disconnect { guild_id }]),
{
}

/// The renewal schedule at each attempt: a successful renewal, at whatever
/// attempt of the cycle, ends the cycle with a 1000 s pause and no further
/// renewal; a failed one is retried after 3 s until the fifth, after which
/// the cycle ends with a 3 s and a 1000 s pause.
pub proof fn lemma_renewal_outcomes(failures: u8)
    requires
        failures < MAX_ATTEMPTS,
    ensures
        renew_step_spec(RenewStage::Renewing { failures }, RenewEvent::Renewed(true))
            == (RenewStage::CheckSlot, seq![RenewAction::Sleep { seconds: 1000 }, RenewAction::CheckSlot]),
        failures < 4 ==> renew_step_spec(RenewStage::Renewing { failures }, RenewEvent::Renewed(false))
            == (RenewStage::Renewing { failures: (failures + 1) as u8 },
                seq![RenewAction::Sleep { seconds: 3 }, RenewAction::Renew]),
        failures == 4 ==> renew_step_spec(RenewStage::Renewing { failures }, RenewEvent::Renewed(false))
            == (RenewStage::CheckSlot,
                seq![RenewAction::Sleep { seconds: 3 }, RenewAction::Sleep { seconds: 1000 }, RenewAction::CheckSlot]),
        renew_step_spec(RenewStage::CheckSlot, RenewEvent::SlotPresent(true))
            == (RenewStage::Renewing { failures: 0 }, seq![RenewAction::Renew]),
{
}

} // verus!
