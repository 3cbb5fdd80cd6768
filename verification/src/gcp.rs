//! The Google Cloud text-to-speech backend: access token, request and
//! response bodies, voice and language codes, and engine configuration.

use vstd::prelude::*;

use crate::text::{has_prefix, push_char, replace, replaced, trim, trimmed};

verus! {

#[verifier::external_type_specification]
#[verifier::external_body]
pub struct ExDecodeError(base64::DecodeError);

#[verifier::external_type_specification]
#[verifier::external_body]
pub struct ExThreadRng(rand::rngs::ThreadRng);

/// Errors of the speech engines. The messages of errors raised by I/O are
/// carried as text.
#[derive(Debug)]
pub enum TtsError {
    Io(String),
    CommandError(String, String, Option<i32>),
    PersistError(String),
    ReqwestError(String),
    DecodeError(base64::DecodeError),
    OAuth2Error(String),
    JoinError(String),
}

/// A Google Cloud access token with the path of the service-account key it
/// was issued from.
#[derive(Clone, Debug)]
pub struct GcpToken(String, String);

impl GcpToken {
    /// The access token `token`, issued from the key at `cert_path`.
    pub fn from_parts(token: String, cert_path: String) -> (t: Self)
        ensures
            t.token() == token@,
            t.cert_path() == cert_path@,
    {
        GcpToken(token, cert_path)
    }

    /// The token's text.
    pub closed spec fn token(&self) -> Seq<char> {
        self.0@
    }

    /// The key path the token is renewed from.
    pub closed spec fn cert_path(&self) -> Seq<char> {
        self.1@
    }

    /// The access token.
    pub fn show(&self) -> (s: String)
        ensures
            s@ == self.token(),
    {
        self.0.clone()
    }

    /// The path of the service-account key.
    pub fn key_path(&self) -> (s: &str)
        ensures
            s@ == self.cert_path(),
    {
        self.1.as_str()
    }

    /// Replaces the token with a renewed one; the key path stays.
    pub fn renew_with(&mut self, token: String)
        ensures
            final(self).token() == token@,
            final(self).cert_path() == old(self).cert_path(),
    {
        self.0 = token;
    }
}

/// The text to synthesise.
#[derive(Clone, Debug)]
pub struct GcpInputRequest {
    pub text: String,
}

/// The voice to synthesise with.
#[derive(Clone, Debug)]
pub struct GcpVoiceRequest {
    pub language_code: String,
    pub name: String,
    pub ssml_gender: String,
}

/// An `f64` held by its IEEE-754 bit pattern.
#[derive(Clone, Copy, Debug, PartialEq, Eq, Structural)]
pub struct Real(pub u64);

/// The audio output settings; absent settings are left to the service.
#[derive(Clone, Debug)]
pub struct GcpAudioConfigRequest {
    pub audio_encoding: String,
    pub speaking_rate: Option<Real>,
    pub pitch: Option<Real>,
    pub voice_gain_db: Option<Real>,
    pub sample_rate_hertz: Option<u64>,
}

impl GcpAudioConfigRequest {
    /// The settings with an empty encoding and nothing else set.
    pub fn default() -> (c: Self)
        ensures
            c.audio_encoding@ == Seq::<char>::empty(),
            c.speaking_rate is None,
            c.pitch is None,
            c.voice_gain_db is None,
            c.sample_rate_hertz is None,
    {
        GcpAudioConfigRequest {
            audio_encoding: String::new(),
            speaking_rate: None,
            pitch: None,
            voice_gain_db: None,
            sample_rate_hertz: None,
        }
    }
}

/// A synthesis request.
#[derive(Clone, Debug)]
pub struct GcpRequest {
    pub input: GcpInputRequest,
    pub voice: GcpVoiceRequest,
    pub audio_config: GcpAudioConfigRequest,
}

/// A synthesis response: the audio, base64-encoded.
#[derive(Clone, Debug)]
pub struct GcpResponse {
    pub audio_content: String,
}

/// What `base64::decode` (standard alphabet, padded) returns for a text:
/// the bytes, or nothing when the text is not valid base64.
pub uninterp spec fn base64_decoded(text: Seq<char>) -> Option<Seq<u8>>;

/// `base64::decode`: the bytes that `text` encodes. It fails exactly when
/// `base64_decoded` has no value, and otherwise returns that value.
#[verifier::external_body]
fn base64_decode(text: &str) -> (r: Result<Vec<u8>, base64::DecodeError>)
    ensures
        r is Ok <==> base64_decoded(text@) is Some,
        r matches Ok(v) ==> base64_decoded(text@) == Some(v@),
{
    base64::decode(text)
}

impl GcpResponse {
    /// The audio bytes, or a decoding error when the content is not base64.
    pub fn decode(&self) -> (r: Result<Vec<u8>, TtsError>)
        ensures
            r is Ok <==> base64_decoded(self.audio_content@) is Some,
            r matches Ok(v) ==> base64_decoded(self.audio_content@) == Some(v@),
            r matches Err(e) ==> e is DecodeError,
    {
        match base64_decode(self.audio_content.as_str()) {
            Ok(v) => Ok(v),
            Err(e) => Err(TtsError::DecodeError(e)),
        }
    }
}

/// An engine's settings: token, voice and audio output.
#[derive(Clone, Debug)]
pub struct GcpConfig {
    pub access_token: String,
    pub voice: GcpVoiceRequest,
    pub audio_config: GcpAudioConfigRequest,
}

impl GcpConfig {
    /// The settings with the given token, voice and audio output.
    pub fn new(token: &str, voice: GcpVoiceRequest, audio_config: GcpAudioConfigRequest) -> (c: Self)
        ensures
            c.access_token@ == token@,
            c.voice == voice,
            c.audio_config == audio_config,
    {
        GcpConfig { access_token: token.to_owned(), voice, audio_config }
    }
}

fn copy_voice(v: &GcpVoiceRequest) -> (r: GcpVoiceRequest)
    ensures
        r == *v,
{
    GcpVoiceRequest {
        language_code: v.language_code.clone(),
        name: v.name.clone(),
        ssml_gender: v.ssml_gender.clone(),
    }
}

fn copy_audio(a: &GcpAudioConfigRequest) -> (r: GcpAudioConfigRequest)
    ensures
        r == *a,
{
    GcpAudioConfigRequest {
        audio_encoding: a.audio_encoding.clone(),
        speaking_rate: a.speaking_rate,
        pitch: a.pitch,
        voice_gain_db: a.voice_gain_db,
        sample_rate_hertz: a.sample_rate_hertz,
    }
}

/// The Google Cloud speech engine.
#[derive(Clone, Debug)]
pub struct GcpTts {
    pub config: GcpConfig,
}

/// The token sent as bearer credential: when the configured token, trimmed,
/// starts with `Bearer `, every `Bearer ` in it is removed; otherwise it is
/// sent as it is.
pub open spec fn bearer_stripped(t: Seq<char>) -> Seq<char> {
    if has_prefix(trimmed(t), "Bearer "@) {
        replaced(t, "Bearer "@, Seq::<char>::empty())
    } else {
        t
    }
}

/// Whether a byte is an ASCII letter or digit.
pub open spec fn is_ascii_alphanumeric(b: u8) -> bool {
    (48 <= b <= 57) || (65 <= b <= 90) || (97 <= b <= 122)
}

/// `rand::thread_rng`: the thread's random generator.
#[verifier::external_body]
fn new_thread_rng() -> rand::rngs::ThreadRng {
    rand::thread_rng()
}

/// `Rng::sample` with `Alphanumeric`: a random ASCII letter or digit.
#[verifier::external_body]
fn sample_alphanumeric(rng: &mut rand::rngs::ThreadRng) -> (b: u8)
    ensures
        is_ascii_alphanumeric(b),
{
    rand::Rng::sample(rng, rand::distributions::Alphanumeric)
}

/// Whether a character is an ASCII letter or digit.
pub open spec fn is_alphanumeric_char(c: char) -> bool {
    ('0' <= c && c <= '9') || ('A' <= c && c <= 'Z') || ('a' <= c && c <= 'z')
}

/// The file name made of the characters of the bytes `draws`, a dot, and
/// `extension`.
pub fn file_name_from(draws: &Vec<u8>, extension: &str) -> (s: String)
    requires
        draws@.len() == 32,
        forall|k: int| 0 <= k < 32 ==> is_ascii_alphanumeric(#[trigger] draws@[k]),
    ensures
        s@ == draws@.map_values(|b: u8| b as char) + seq!['.'] + extension@,
{
    let mut s = String::new();
    let mut i: usize = 0;
    while i < 32
        invariant
            i <= 32,
            draws@.len() == 32,
            s@ == draws@.map_values(|b: u8| b as char).take(i as int),
        decreases 32 - i,
    {
        let c = draws[i] as char;
        push_char(&mut s, c);
        i = i + 1;
        assert(s@ =~= draws@.map_values(|b: u8| b as char).take(i as int));
    }
    assert(draws@.map_values(|b: u8| b as char).take(32) =~= draws@.map_values(|b: u8| b as char));
    push_char(&mut s, '.');
    s.append(extension);
    s
}

/// A fresh file name: 32 ASCII letters and digits drawn at random from the
/// thread's generator, a dot, and `extension`.
pub fn random_file_name(extension: &str) -> (s: String)
    ensures
        s@.len() == 33 + extension@.len(),
        forall|i: int| 0 <= i < 32 ==> is_alphanumeric_char(#[trigger] s@[i]),
        s@[32] == '.',
        s@.skip(33) == extension@,
{
    let mut rng = new_thread_rng();
    let mut draws: Vec<u8> = Vec::new();
    while draws.len() < 32
        invariant
            draws@.len() <= 32,
            forall|k: int| 0 <= k < draws@.len() ==> is_ascii_alphanumeric(#[trigger] draws@[k]),
        decreases 32 - draws@.len(),
    {
        let b = sample_alphanumeric(&mut rng);
        draws.push(b);
    }
    let s = file_name_from(&draws, extension);
    let ghost m = draws@.map_values(|b: u8| b as char);
    assert(s@.skip(33) =~= extension@);
    assert forall|k: int| 0 <= k < 32 implies is_alphanumeric_char(#[trigger] s@[k]) by {
        assert(s@[k] == m[k]);
        assert(is_ascii_alphanumeric(draws@[k]));
        assert(m[k] as u32 == draws@[k] as u32);
    }
    s
}

impl GcpTts {
    /// The engine with the given settings; this never fails.
    pub fn from_config(config: GcpConfig) -> (r: Result<Self, TtsError>)
        ensures
            r matches Ok(e) && e.config == config,
    {
        Ok(GcpTts { config })
    }

    /// The token to send as bearer credential.
    pub fn bearer_token(&self) -> (s: String)
        ensures
            s@ == bearer_stripped(self.config.access_token@),
    {
        let t = self.config.access_token.as_str();
        proof {
            reveal_strlit("Bearer ");
            reveal_strlit("");
        }
        let trimmed_token = trim(t);
        let prefixed = crate::text::starts_with(trimmed_token.as_str(), "Bearer ");
        assert(t@ == self.config.access_token@);
        assert(trimmed_token@ == trimmed(t@));
        assert(prefixed == has_prefix(trimmed(t@), "Bearer "@));
        if prefixed {
            let r = replace(t, "Bearer ", "");
            assert(""@ =~= Seq::<char>::empty());
            assert(r@ == replaced(t@, "Bearer "@, Seq::<char>::empty()));
            r
        } else {
            self.config.access_token.clone()
        }
    }

    /// The request that synthesises `text` with this engine's voice and
    /// audio settings.
    pub fn request(&self, text: &str) -> (r: GcpRequest)
        ensures
            r.input.text@ == text@,
            r.voice == self.config.voice,
            r.audio_config == self.config.audio_config,
    {
        GcpRequest {
            input: GcpInputRequest { text: text.to_owned() },
            voice: copy_voice(&self.config.voice),
            audio_config: copy_audio(&self.config.audio_config),
        }
    }

    /// The name under which the synthesised audio is stored.
    pub fn audio_file_name(&self) -> (s: String)
        ensures
            s@.len() == 36,
            forall|i: int| 0 <= i < 32 ==> is_alphanumeric_char(#[trigger] s@[i]),
            s@.skip(32) == ".mp3"@,
    {
        proof {
            reveal_strlit("mp3");
            reveal_strlit(".mp3");
        }
        let s = random_file_name("mp3");
        assert(".mp3"@ =~= seq!['.'] + "mp3"@);
        assert(s@.skip(32) =~= seq![s@[32]] + s@.skip(33));
        s
    }
}

/// The voice genders.
#[derive(Clone, Copy, Debug, PartialEq, Eq, Structural)]
pub enum GenderCode {
    Male,
    Female,
}

/// The name the service knows a gender by.
pub open spec fn gender_name(g: GenderCode) -> Seq<char> {
    match g {
        GenderCode::Male => "MALE"@,
        GenderCode::Female => "FEMALE"@,
    }
}

impl GenderCode {
    /// `MALE` or `FEMALE`.
    pub fn to_string(&self) -> (s: String)
        ensures
            s@ == gender_name(*self),
    {
        match self {
            GenderCode::Male => String::from_str("MALE"),
            GenderCode::Female => String::from_str("FEMALE"),
        }
    }
}

/// The languages the service synthesises.
#[derive(Clone, Copy, Debug, PartialEq, Eq, Structural)]
pub enum LanguageCode {
    ArXA,
    BnIN,
    YueHK,
    CsCZ,
    DaDK,
    NlNL,
    EnAU,
    EnIN,
    EnGB,
    EnUS,
    FilPH,
    FiFI,
    FrCA,
    FrFR,
    DeDE,
    ElGR,
    HiIN,
    HuHU,
    IdID,
    ItIT,
    JaJP,
    KnIN,
    KoKR,
    CmnCN,
    CmnTW,
    NbNO,
    PlPL,
    PtPT,
    RuRU,
    EsES,
    TrTR,
    ViVN
}

/// The tag the service knows a language by.
pub open spec fn language_tag(l: LanguageCode) -> Seq<char> {
    match l {
        LanguageCode::ArXA => "ar-XA"@,
        LanguageCode::BnIN => "bn-IN"@,
        LanguageCode::YueHK => "yue-HK"@,
        LanguageCode::CsCZ => "cs-CZ"@,
        LanguageCode::DaDK => "da-DK"@,
        LanguageCode::NlNL => "nl-NL"@,
        LanguageCode::EnAU => "en-AU"@,
        LanguageCode::EnIN => "en-IN"@,
        LanguageCode::EnGB => "en-GB"@,
        LanguageCode::EnUS => "en-US"@,
        LanguageCode::FilPH => "fil-PH"@,
        LanguageCode::FiFI => "fi-FI"@,
        LanguageCode::FrCA => "fr-CA"@,
        LanguageCode::FrFR => "fr-FR"@,
        LanguageCode::DeDE => "de-DE"@,
        LanguageCode::ElGR => "el-GR"@,
        LanguageCode::HiIN => "hi-IN"@,
        LanguageCode::HuHU => "hu-HU"@,
        LanguageCode::IdID => "id-ID"@,
        LanguageCode::ItIT => "it-IT"@,
        LanguageCode::JaJP => "ja-JP"@,
        LanguageCode::KnIN => "kn-IN"@,
        LanguageCode::KoKR => "ko-KR"@,
        LanguageCode::CmnCN => "cmn-CN"@,
        LanguageCode::CmnTW => "cmn-TW"@,
        LanguageCode::NbNO => "nb-NO"@,
        LanguageCode::PlPL => "pl-PL"@,
        LanguageCode::PtPT => "pt-PT"@,
        LanguageCode::RuRU => "ru-RU"@,
        LanguageCode::EsES => "es-ES"@,
        LanguageCode::TrTR => "tr-TR"@,
        LanguageCode::ViVN => "vi-VN"@,
    }
}

impl LanguageCode {
    /// The language's tag, such as `ja-JP`.
    pub fn tag(&self) -> (s: &'static str)
        ensures
            s@ == language_tag(*self),
    {
        match self {
            LanguageCode::ArXA => "ar-XA",
            LanguageCode::BnIN => "bn-IN",
            LanguageCode::YueHK => "yue-HK",
            LanguageCode::CsCZ => "cs-CZ",
            LanguageCode::DaDK => "da-DK",
            LanguageCode::NlNL => "nl-NL",
            LanguageCode::EnAU => "en-AU",
            LanguageCode::EnIN => "en-IN",
            LanguageCode::EnGB => "en-GB",
            LanguageCode::EnUS => "en-US",
            LanguageCode::FilPH => "fil-PH",
            LanguageCode::FiFI => "fi-FI",
            LanguageCode::FrCA => "fr-CA",
            LanguageCode::FrFR => "fr-FR",
            LanguageCode::DeDE => "de-DE",
            LanguageCode::ElGR => "el-GR",
            LanguageCode::HiIN => "hi-IN",
            LanguageCode::HuHU => "hu-HU",
            LanguageCode::IdID => "id-ID",
            LanguageCode::ItIT => "it-IT",
            LanguageCode::JaJP => "ja-JP",
            LanguageCode::KnIN => "kn-IN",
            LanguageCode::KoKR => "ko-KR",
            LanguageCode::CmnCN => "cmn-CN",
            LanguageCode::CmnTW => "cmn-TW",
            LanguageCode::NbNO => "nb-NO",
            LanguageCode::PlPL => "pl-PL",
            LanguageCode::PtPT => "pt-PT",
            LanguageCode::RuRU => "ru-RU",
            LanguageCode::EsES => "es-ES",
            LanguageCode::TrTR => "tr-TR",
            LanguageCode::ViVN => "vi-VN",
        }
    }

    /// The language's tag as a new string.
    pub fn to_string(&self) -> (s: String)
        ensures
            s@ == language_tag(*self),
    {
        String::from_str(self.tag())
    }
}

/// The two voice tiers.
#[derive(Clone, Copy, Debug, PartialEq, Eq, Structural)]
pub enum VoiceTier {
    Standard,
    Wavenet,
}

/// The voice variants of a language and tier.
#[derive(Clone, Copy, Debug, PartialEq, Eq, Structural)]
pub enum VoiceVariant {
    A,
    B,
    C,
    D,
    E,
}

/// A voice: a language, a tier and a variant, named like `ja-JP-Wavenet-A`.
#[derive(Clone, Copy, Debug, PartialEq, Eq, Structural)]
pub struct VoiceCode {
    pub language: LanguageCode,
    pub tier: VoiceTier,
    pub variant: VoiceVariant,
}

/// The infix of a tier in a voice name.
pub open spec fn tier_infix(t: VoiceTier) -> Seq<char> {
    match t {
        VoiceTier::Standard => "-Standard-"@,
        VoiceTier::Wavenet => "-Wavenet-"@,
    }
}

/// The letter of a variant.
pub open spec fn variant_letter(v: VoiceVariant) -> Seq<char> {
    match v {
        VoiceVariant::A => "A"@,
        VoiceVariant::B => "B"@,
        VoiceVariant::C => "C"@,
        VoiceVariant::D => "D"@,
        VoiceVariant::E => "E"@,
    }
}

/// The name the service knows a voice by.
pub open spec fn voice_name(v: VoiceCode) -> Seq<char> {
    language_tag(v.language) + tier_infix(v.tier) + variant_letter(v.variant)
}

impl VoiceCode {
    /// The voice's name, such as `ja-JP-Standard-A`.
    pub fn to_string(&self) -> (s: String)
        ensures
            s@ == voice_name(*self),
    {
        let mut s = String::from_str(self.language.tag());
        let infix = match self.tier {
            VoiceTier::Standard => "-Standard-",
            VoiceTier::Wavenet => "-Wavenet-",
        };
        s.append(infix);
        let letter = match self.variant {
            VoiceVariant::A => "A",
            VoiceVariant::B => "B",
            VoiceVariant::C => "C",
            VoiceVariant::D => "D",
            VoiceVariant::E => "E",
        };
        s.append(letter);
        s
    }
}

} // verus!
