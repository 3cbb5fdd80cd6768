//! Choosing and configuring a speech engine: the selectable voices, their
//! model names, and the engine each one builds.

use vstd::prelude::*;

use crate::gcp::{
    gender_name, language_tag, voice_name, GcpAudioConfigRequest, GcpConfig, GcpTts,
    GcpVoiceRequest, GenderCode, LanguageCode, Real, TtsError, VoiceCode, VoiceTier,
    VoiceVariant,
};
use crate::text::same_text;

verus! {

/// The settings of the Open JTalk synthesiser. Paths are held as text and
/// real-valued settings by their bit patterns.
#[derive(Clone, Debug)]
pub struct OpenJTalkConfig {
    pub dictionary: String,
    pub hts_path: String,
    pub sampling: Option<i64>,
    pub frame_period: Option<i64>,
    pub all_pass: Option<Real>,
    pub postfilter_coef: Real,
    pub speed_rate: Real,
    pub additional_half_tone: Real,
    pub unvoiced_threshold: Real,
    pub spectrum_weight: Real,
    pub spectrum_f0: Real,
}

/// The bit pattern of `0.0`.
pub const ZERO: u64 = 0x0u64;
/// The bit pattern of `0.5`.
pub const HALF: u64 = 0x3fe0000000000000u64;
/// The bit pattern of `1.0`.
pub const ONE: u64 = 0x3ff0000000000000u64;
/// The bit pattern of `0.54`.
pub const MEI_ALL_PASS: u64 = 0x3fe147ae147ae148u64;
/// The bit pattern of `0.8`.
pub const MEI_POSTFILTER: u64 = 0x3fe999999999999au64;

impl OpenJTalkConfig {
    /// Empty paths, no sampling, frame period or all-pass constant, no
    /// postfilter, normal speed and pitch, threshold one half, unit weights.
    pub fn default() -> (c: Self)
        ensures
            c.dictionary@ == Seq::<char>::empty(),
            c.hts_path@ == Seq::<char>::empty(),
            c.sampling is None,
            c.frame_period is None,
            c.all_pass is None,
            c.postfilter_coef == Real(ZERO),
            c.speed_rate == Real(ONE),
            c.additional_half_tone == Real(ZERO),
            c.unvoiced_threshold == Real(HALF),
            c.spectrum_weight == Real(ONE),
            c.spectrum_f0 == Real(ONE),
    {
        OpenJTalkConfig {
            dictionary: String::new(),
            hts_path: String::new(),
            sampling: None,
            frame_period: None,
            all_pass: None,
            postfilter_coef: Real(ZERO),
            speed_rate: Real(ONE),
            additional_half_tone: Real(ZERO),
            unvoiced_threshold: Real(HALF),
            spectrum_weight: Real(ONE),
            spectrum_f0: Real(ONE),
        }
    }
}

/// The Open JTalk speech engine.
pub struct OpenJTalk {
    config: OpenJTalkConfig,
}

impl OpenJTalk {
    /// The engine's settings.
    pub closed spec fn settings(&self) -> OpenJTalkConfig {
        self.config
    }

    /// The engine with the given settings; this never fails.
    pub fn from_config(config: OpenJTalkConfig) -> (r: Result<Self, TtsError>)
        ensures
            r matches Ok(e) && e.settings() == config,
    {
        Ok(OpenJTalk { config })
    }

    /// The engine's settings.
    pub fn config(&self) -> (c: &OpenJTalkConfig)
        ensures
            *c == self.settings(),
    {
        &self.config
    }

    /// What a run of the `open_jtalk` command comes to: success when it
    /// exited successfully, else a command error carrying its standard
    /// output, standard error and exit code.
    pub fn run_outcome(success: bool, stdout: String, stderr: String, code: Option<i32>) -> (r: Result<(), TtsError>)
        ensures
            success ==> r is Ok,
            !success ==> (r matches Err(TtsError::CommandError(o, e, c)) && o@ == stdout@ && e@ == stderr@ && c == code),
    {
        if success {
            Ok(())
        } else {
            Err(TtsError::CommandError(stdout, stderr, code))
        }
    }
}

/// The voices a guild can choose; the cloud voices carry the access token.
pub enum TtsType {
    OpenJTalkMeiNormal,
    GcpJpFemaleNormalA(String),
    GcpJpFemaleNormalB(String),
    GcpJpFemalePremiumA(String),
    GcpJpFemalePremiumB(String),
    GcpJpMaleNormalA(String),
    GcpJpMaleNormalB(String),
    GcpJpMalePremiumA(String),
    GcpJpMalePremiumB(String),
}

/// A configured engine.
pub enum TtsKind {
    OpenJTalk(OpenJTalk),
    Gcp(GcpTts),
}

impl TtsKind {
    /// The Open JTalk engine this holds.
    pub fn ensure_ojtalk(self) -> (e: OpenJTalk)
        requires
            self is OpenJTalk,
        ensures
            self matches TtsKind::OpenJTalk(x) && e == x,
    {
        match self {
            TtsKind::OpenJTalk(e) => e,
            TtsKind::Gcp(_) => vstd::pervasive::unreached(),
        }
    }

    /// The cloud engine this holds.
    pub fn ensure_gcp(self) -> (e: GcpTts)
        requires
            self is Gcp,
        ensures
            self matches TtsKind::Gcp(x) && e == x,
    {
        match self {
            TtsKind::Gcp(e) => e,
            TtsKind::OpenJTalk(_) => vstd::pervasive::unreached(),
        }
    }
}

/// The Japanese voice of a language, tier and variant.
pub open spec fn ja_voice(tier: VoiceTier, variant: VoiceVariant) -> VoiceCode {
    VoiceCode { language: LanguageCode::JaJP, tier, variant }
}

/// The cloud voice and gender a voice choice selects; none for Open JTalk.
pub open spec fn gcp_voice_of(t: TtsType) -> Option<(VoiceCode, GenderCode)> {
    match t {
        TtsType::OpenJTalkMeiNormal => None,
        TtsType::GcpJpFemaleNormalA(_) => Some((ja_voice(VoiceTier::Standard, VoiceVariant::A), GenderCode::Female)),
        TtsType::GcpJpFemaleNormalB(_) => Some((ja_voice(VoiceTier::Standard, VoiceVariant::B), GenderCode::Female)),
        TtsType::GcpJpFemalePremiumA(_) => Some((ja_voice(VoiceTier::Wavenet, VoiceVariant::A), GenderCode::Female)),
        TtsType::GcpJpFemalePremiumB(_) => Some((ja_voice(VoiceTier::Wavenet, VoiceVariant::B), GenderCode::Female)),
        TtsType::GcpJpMaleNormalA(_) => Some((ja_voice(VoiceTier::Standard, VoiceVariant::C), GenderCode::Male)),
        TtsType::GcpJpMaleNormalB(_) => Some((ja_voice(VoiceTier::Standard, VoiceVariant::D), GenderCode::Male)),
        TtsType::GcpJpMalePremiumA(_) => Some((ja_voice(VoiceTier::Wavenet, VoiceVariant::C), GenderCode::Male)),
        TtsType::GcpJpMalePremiumB(_) => Some((ja_voice(VoiceTier::Wavenet, VoiceVariant::D), GenderCode::Male)),
    }
}

/// The access token a cloud voice choice carries; empty for Open JTalk.
pub open spec fn token_of(t: TtsType) -> Seq<char> {
    match t {
        TtsType::OpenJTalkMeiNormal => Seq::<char>::empty(),
        TtsType::GcpJpFemaleNormalA(k) => k@,
        TtsType::GcpJpFemaleNormalB(k) => k@,
        TtsType::GcpJpFemalePremiumA(k) => k@,
        TtsType::GcpJpFemalePremiumB(k) => k@,
        TtsType::GcpJpMaleNormalA(k) => k@,
        TtsType::GcpJpMaleNormalB(k) => k@,
        TtsType::GcpJpMalePremiumA(k) => k@,
        TtsType::GcpJpMalePremiumB(k) => k@,
    }
}

/// A cloud engine speaking with `voice` and `gender`, using `token`, with MP3
/// output and every other audio setting left unset.
pub open spec fn is_gcp_engine(e: GcpTts, token: Seq<char>, voice: VoiceCode, gender: GenderCode) -> bool {
    &&& e.config.access_token@ == token
    &&& e.config.voice.language_code@ == language_tag(voice.language)
    &&& e.config.voice.name@ == voice_name(voice)
    &&& e.config.voice.ssml_gender@ == gender_name(gender)
    &&& e.config.audio_config.audio_encoding@ == "MP3"@
    &&& e.config.audio_config.speaking_rate is None
    &&& e.config.audio_config.pitch is None
    &&& e.config.audio_config.voice_gain_db is None
    &&& e.config.audio_config.sample_rate_hertz is None
}

/// The Open JTalk settings of the "mei normal" voice: the system dictionary,
/// the mei voice file, all-pass constant 0.54, postfilter 0.8, the rest as
/// the defaults.
pub open spec fn is_mei_normal(c: OpenJTalkConfig) -> bool {
    &&& c.dictionary@ == "/usr/local/dic/"@
    &&& c.hts_path@ == "/root/.config/resources/voice/mei_normal.htsvoice"@
    &&& c.sampling is None
    &&& c.frame_period is None
    &&& c.all_pass == Some(Real(MEI_ALL_PASS))
    &&& c.postfilter_coef == Real(MEI_POSTFILTER)
    &&& c.speed_rate == Real(ONE)
    &&& c.additional_half_tone == Real(ZERO)
    &&& c.unvoiced_threshold == Real(HALF)
    &&& c.spectrum_weight == Real(ONE)
    &&& c.spectrum_f0 == Real(ONE)
}

fn gcp_engine(token: String, voice: VoiceCode, gender: GenderCode) -> (r: Result<TtsKind, TtsError>)
    ensures
        r matches Ok(TtsKind::Gcp(e)) && is_gcp_engine(e, token@, voice, gender),
{
    let v = GcpVoiceRequest {
        language_code: voice.language.to_string(),
        name: voice.to_string(),
        ssml_gender: gender.to_string(),
    };
    let mut audio_config = GcpAudioConfigRequest::default();
    audio_config.audio_encoding = String::from_str("MP3");
    let config = GcpConfig::new(token.as_str(), v, audio_config);
    match GcpTts::from_config(config) {
        Ok(engine) => Ok(TtsKind::Gcp(engine)),
        Err(e) => Err(e),
    }
}

/// The engine a voice choice builds: the "mei normal" Open JTalk voice, or a
/// cloud engine with the chosen Japanese voice, its gender, the carried token
/// and MP3 output. It never fails.
pub fn create_tts_engine(tts_type: TtsType) -> (r: Result<TtsKind, TtsError>)
    ensures
        r is Ok,
        tts_type is OpenJTalkMeiNormal ==> (r matches Ok(TtsKind::OpenJTalk(e)) && is_mei_normal(e.settings())),
        gcp_voice_of(tts_type) matches Some((voice, gender)) ==> (r matches Ok(TtsKind::Gcp(e))
            && is_gcp_engine(e, token_of(tts_type), voice, gender)),
{
    match tts_type {
        TtsType::OpenJTalkMeiNormal => {
            let mut config = OpenJTalkConfig::default();
            config.dictionary = String::from_str("/usr/local/dic/");
            config.hts_path = String::from_str("/root/.config/resources/voice/mei_normal.htsvoice");
            config.all_pass = Some(Real(MEI_ALL_PASS));
            config.postfilter_coef = Real(MEI_POSTFILTER);
            match OpenJTalk::from_config(config) {
                Ok(engine) => Ok(TtsKind::OpenJTalk(engine)),
                Err(e) => Err(e),
            }
        },
        TtsType::GcpJpFemaleNormalA(token) => gcp_engine(token,
            VoiceCode { language: LanguageCode::JaJP, tier: VoiceTier::Standard, variant: VoiceVariant::A },
            GenderCode::Female),
        TtsType::GcpJpFemaleNormalB(token) => gcp_engine(token,
            VoiceCode { language: LanguageCode::JaJP, tier: VoiceTier::Standard, variant: VoiceVariant::B },
            GenderCode::Female),
        TtsType::GcpJpFemalePremiumA(token) => gcp_engine(token,
            VoiceCode { language: LanguageCode::JaJP, tier: VoiceTier::Wavenet, variant: VoiceVariant::A },
            GenderCode::Female),
        TtsType::GcpJpFemalePremiumB(token) => gcp_engine(token,
            VoiceCode { language: LanguageCode::JaJP, tier: VoiceTier::Wavenet, variant: VoiceVariant::B },
            GenderCode::Female),
        TtsType::GcpJpMaleNormalA(token) => gcp_engine(token,
            VoiceCode { language: LanguageCode::JaJP, tier: VoiceTier::Standard, variant: VoiceVariant::C },
            GenderCode::Male),
        TtsType::GcpJpMaleNormalB(token) => gcp_engine(token,
            VoiceCode { language: LanguageCode::JaJP, tier: VoiceTier::Standard, variant: VoiceVariant::D },
            GenderCode::Male),
        TtsType::GcpJpMalePremiumA(token) => gcp_engine(token,
            VoiceCode { language: LanguageCode::JaJP, tier: VoiceTier::Wavenet, variant: VoiceVariant::C },
            GenderCode::Male),
        TtsType::GcpJpMalePremiumB(token) => gcp_engine(token,
            VoiceCode { language: LanguageCode::JaJP, tier: VoiceTier::Wavenet, variant: VoiceVariant::D },
            GenderCode::Male),
    }
}

/// The voice choice a model name selects.
#[derive(Clone, Copy, Debug, PartialEq, Eq, Structural)]
pub enum VoiceModel {
    FemaleNormalA,
    FemaleNormalB,
    FemalePremiumA,
    FemalePremiumB,
    MaleNormalA,
    MaleNormalB,
    MalePremiumA,
    MalePremiumB,
}

/// The model name of each voice choice, as stored for a guild.
pub open spec fn model_name(m: VoiceModel) -> Seq<char> {
    match m {
        VoiceModel::FemaleNormalA => "JP-Female-Normal-A"@,
        VoiceModel::FemaleNormalB => "JP-Female-Normal-B"@,
        VoiceModel::FemalePremiumA => "JP-Female-Premium-A"@,
        VoiceModel::FemalePremiumB => "JP-Female-Premium-B"@,
        VoiceModel::MaleNormalA => "JP-Male-Normal-A"@,
        VoiceModel::MaleNormalB => "JP-Male-Normal-B"@,
        VoiceModel::MalePremiumA => "JP-Male-Premium-A"@,
        VoiceModel::MalePremiumB => "JP-Male-Premium-B"@,
    }
}

/// The voice choice whose model name is `name`, if any.
pub open spec fn model_named(name: Seq<char>) -> Option<VoiceModel> {
    if name == model_name(VoiceModel::FemaleNormalA) { Some(VoiceModel::FemaleNormalA) }
    else if name == model_name(VoiceModel::FemaleNormalB) { Some(VoiceModel::FemaleNormalB) }
    else if name == model_name(VoiceModel::FemalePremiumA) { Some(VoiceModel::FemalePremiumA) }
    else if name == model_name(VoiceModel::FemalePremiumB) { Some(VoiceModel::FemalePremiumB) }
    else if name == model_name(VoiceModel::MaleNormalA) { Some(VoiceModel::MaleNormalA) }
    else if name == model_name(VoiceModel::MaleNormalB) { Some(VoiceModel::MaleNormalB) }
    else if name == model_name(VoiceModel::MalePremiumA) { Some(VoiceModel::MalePremiumA) }
    else if name == model_name(VoiceModel::MalePremiumB) { Some(VoiceModel::MalePremiumB) }
    else { None }
}

/// The voice choice `t` stands for; none for Open JTalk.
pub open spec fn model_of(t: TtsType) -> Option<VoiceModel> {
    match t {
        TtsType::OpenJTalkMeiNormal => None,
        TtsType::GcpJpFemaleNormalA(_) => Some(VoiceModel::FemaleNormalA),
        TtsType::GcpJpFemaleNormalB(_) => Some(VoiceModel::FemaleNormalB),
        TtsType::GcpJpFemalePremiumA(_) => Some(VoiceModel::FemalePremiumA),
        TtsType::GcpJpFemalePremiumB(_) => Some(VoiceModel::FemalePremiumB),
        TtsType::GcpJpMaleNormalA(_) => Some(VoiceModel::MaleNormalA),
        TtsType::GcpJpMaleNormalB(_) => Some(VoiceModel::MaleNormalB),
        TtsType::GcpJpMalePremiumA(_) => Some(VoiceModel::MalePremiumA),
        TtsType::GcpJpMalePremiumB(_) => Some(VoiceModel::MalePremiumB),
    }
}

/// The cloud voice choice stored under the model name `model`, carrying
/// `token`; none when the name is not one of the eight model names.
pub fn tts_type_for_model(model: &str, token: String) -> (r: Option<TtsType>)
    ensures
        model_named(model@) is None ==> r is None,
        model_named(model@) matches Some(m) ==> (r matches Some(t) && model_of(t) == Some(m)
            && token_of(t) == token@),
{
    if same_text(model, "JP-Female-Normal-A") { Some(TtsType::GcpJpFemaleNormalA(token)) }
    else if same_text(model, "JP-Female-Normal-B") { Some(TtsType::GcpJpFemaleNormalB(token)) }
    else if same_text(model, "JP-Female-Premium-A") { Some(TtsType::GcpJpFemalePremiumA(token)) }
    else if same_text(model, "JP-Female-Premium-B") { Some(TtsType::GcpJpFemalePremiumB(token)) }
    else if same_text(model, "JP-Male-Normal-A") { Some(TtsType::GcpJpMaleNormalA(token)) }
    else if same_text(model, "JP-Male-Normal-B") { Some(TtsType::GcpJpMaleNormalB(token)) }
    else if same_text(model, "JP-Male-Premium-A") { Some(TtsType::GcpJpMalePremiumA(token)) }
    else if same_text(model, "JP-Male-Premium-B") { Some(TtsType::GcpJpMalePremiumB(token)) }
    else { None }
}


/// The cloud voice and gender of a voice choice.
pub open spec fn model_voice(m: VoiceModel) -> (VoiceCode, GenderCode) {
    match m {
        VoiceModel::FemaleNormalA => (ja_voice(VoiceTier::Standard, VoiceVariant::A), GenderCode::Female),
        VoiceModel::FemaleNormalB => (ja_voice(VoiceTier::Standard, VoiceVariant::B), GenderCode::Female),
        VoiceModel::FemalePremiumA => (ja_voice(VoiceTier::Wavenet, VoiceVariant::A), GenderCode::Female),
        VoiceModel::FemalePremiumB => (ja_voice(VoiceTier::Wavenet, VoiceVariant::B), GenderCode::Female),
        VoiceModel::MaleNormalA => (ja_voice(VoiceTier::Standard, VoiceVariant::C), GenderCode::Male),
        VoiceModel::MaleNormalB => (ja_voice(VoiceTier::Standard, VoiceVariant::D), GenderCode::Male),
        VoiceModel::MalePremiumA => (ja_voice(VoiceTier::Wavenet, VoiceVariant::C), GenderCode::Male),
        VoiceModel::MalePremiumB => (ja_voice(VoiceTier::Wavenet, VoiceVariant::D), GenderCode::Male),
    }
}

/// The cloud engine a voice model's name selects, carrying `token`: nothing
/// when `model` names no voice.
pub fn gcp_engine_for_model(model: &str, token: String) -> (r: Option<GcpTts>)
    ensures
        model_named(model@) is None ==> r is None,
        model_named(model@) matches Some(m) ==> (r matches Some(e)
            && is_gcp_engine(e, token@, model_voice(m).0, model_voice(m).1)),
{
    let ghost k = token@;
    match tts_type_for_model(model, token) {
        Some(t) => {
            let ghost tv = gcp_voice_of(t);
            assert(model_of(t) is Some ==> gcp_voice_of(t) == Some(model_voice(model_of(t)->0)));
            let kind = create_tts_engine(t);
            match kind {
                Ok(TtsKind::Gcp(e)) => Some(e),
                _ => None,
            }
        },
        None => None,
    }
}


/// The eight voice choices, in the order they are offered.
pub open spec fn voice_models() -> Seq<VoiceModel> {
    seq![
        VoiceModel::FemaleNormalA, VoiceModel::FemaleNormalB,
        VoiceModel::FemalePremiumA, VoiceModel::FemalePremiumB,
        VoiceModel::MaleNormalA, VoiceModel::MaleNormalB,
        VoiceModel::MalePremiumA, VoiceModel::MalePremiumB,
    ]
}

/// Storing a voice choice's model name and reading it back gives the same
/// choice: every model name selects its own voice.
pub proof fn lemma_model_name_round_trip(m: VoiceModel)
    ensures
        model_named(model_name(m)) == Some(m),
{
    reveal_strlit("JP-Female-Normal-A");
    reveal_strlit("JP-Female-Normal-B");
    reveal_strlit("JP-Female-Premium-A");
    reveal_strlit("JP-Female-Premium-B");
    reveal_strlit("JP-Male-Normal-A");
    reveal_strlit("JP-Male-Normal-B");
    reveal_strlit("JP-Male-Premium-A");
    reveal_strlit("JP-Male-Premium-B");
    let fa = "JP-Female-Normal-A"@;
    let fb = "JP-Female-Normal-B"@;
    let fpa = "JP-Female-Premium-A"@;
    let fpb = "JP-Female-Premium-B"@;
    let ma = "JP-Male-Normal-A"@;
    let mb = "JP-Male-Normal-B"@;
    let mpa = "JP-Male-Premium-A"@;
    let mpb = "JP-Male-Premium-B"@;
    assert(fa != fb) by { assert(fa[17] != fb[17]); }
    assert(fa != fpa) by { assert(fa.len() != fpa.len()); }
    assert(fa != fpb) by { assert(fa.len() != fpb.len()); }
    assert(fa != ma) by { assert(fa.len() != ma.len()); }
    assert(fa != mb) by { assert(fa.len() != mb.len()); }
    assert(fa != mpa) by { assert(fa[3] != mpa[3]); }
    assert(fa != mpb) by { assert(fa[3] != mpb[3]); }
    assert(fb != fpa) by { assert(fb.len() != fpa.len()); }
    assert(fb != fpb) by { assert(fb.len() != fpb.len()); }
    assert(fb != ma) by { assert(fb.len() != ma.len()); }
    assert(fb != mb) by { assert(fb.len() != mb.len()); }
    assert(fb != mpa) by { assert(fb[3] != mpa[3]); }
    assert(fb != mpb) by { assert(fb[3] != mpb[3]); }
    assert(fpa != fpb) by { assert(fpa[18] != fpb[18]); }
    assert(fpa != ma) by { assert(fpa.len() != ma.len()); }
    assert(fpa != mb) by { assert(fpa.len() != mb.len()); }
    assert(fpa != mpa) by { assert(fpa.len() != mpa.len()); }
    assert(fpa != mpb) by { assert(fpa.len() != mpb.len()); }
    assert(fpb != ma) by { assert(fpb.len() != ma.len()); }
    assert(fpb != mb) by { assert(fpb.len() != mb.len()); }
    assert(fpb != mpa) by { assert(fpb.len() != mpa.len()); }
    assert(fpb != mpb) by { assert(fpb.len() != mpb.len()); }
    assert(ma != mb) by { assert(ma[15] != mb[15]); }
    assert(ma != mpa) by { assert(ma.len() != mpa.len()); }
    assert(ma != mpb) by { assert(ma.len() != mpb.len()); }
    assert(mb != mpa) by { assert(mb.len() != mpa.len()); }
    assert(mb != mpb) by { assert(mb.len() != mpb.len()); }
    assert(mpa != mpb) by { assert(mpa[16] != mpb[16]); }
}

} // verus!
