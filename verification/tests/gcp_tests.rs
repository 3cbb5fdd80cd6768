use ttsbot::gcp::{
    random_file_name, GcpAudioConfigRequest, GcpConfig, GcpResponse, GcpToken, GcpTts,
    GcpVoiceRequest, GenderCode, LanguageCode, TtsError, VoiceCode, VoiceTier, VoiceVariant,
};

fn engine(token: &str) -> GcpTts {
    let voice = GcpVoiceRequest {
        language_code: LanguageCode::JaJP.to_string(),
        name: VoiceCode { language: LanguageCode::JaJP, tier: VoiceTier::Wavenet, variant: VoiceVariant::A }.to_string(),
        ssml_gender: GenderCode::Female.to_string(),
    };
    let mut audio = GcpAudioConfigRequest::default();
    audio.audio_encoding = "MP3".to_string();
    GcpTts::from_config(GcpConfig::new(token, voice, audio)).unwrap()
}

#[test]
fn codes_render_as_the_service_names_them() {
    assert_eq!(GenderCode::Male.to_string(), "MALE");
    assert_eq!(GenderCode::Female.to_string(), "FEMALE");
    assert_eq!(LanguageCode::JaJP.to_string(), "ja-JP");
    assert_eq!(LanguageCode::CmnTW.tag(), "cmn-TW");
    assert_eq!(LanguageCode::YueHK.tag(), "yue-HK");
    let v = VoiceCode { language: LanguageCode::EnGB, tier: VoiceTier::Standard, variant: VoiceVariant::E };
    assert_eq!(v.to_string(), "en-GB-Standard-E");
}

#[test]
fn token_shows_and_renews() {
    let mut t = GcpToken::from_parts("abc".to_string(), "/tmp/key.json".to_string());
    assert_eq!(t.show(), "abc");
    assert_eq!(t.key_path(), "/tmp/key.json");
    t.renew_with("def".to_string());
    assert_eq!(t.show(), "def");
    assert_eq!(t.key_path(), "/tmp/key.json");
}

#[test]
fn bearer_prefix_is_stripped() {
    assert_eq!(engine("ya29.token").bearer_token(), "ya29.token");
    assert_eq!(engine("Bearer ya29.token").bearer_token(), "ya29.token");
    assert_eq!(engine("  Bearer ya29.token").bearer_token(), "  ya29.token");
    assert_eq!(engine("Bearer Bearer x").bearer_token(), "x");
    assert_eq!(engine("Bearer ").bearer_token(), "Bearer ");
    assert_eq!(engine("xBearer y").bearer_token(), "xBearer y");
}

#[test]
fn request_carries_text_and_settings() {
    let e = engine("k");
    let r = e.request("効率的で信頼できるソフトウェア");
    assert_eq!(r.input.text, "効率的で信頼できるソフトウェア");
    assert_eq!(r.voice.language_code, "ja-JP");
    assert_eq!(r.voice.name, "ja-JP-Wavenet-A");
    assert_eq!(r.voice.ssml_gender, "FEMALE");
    assert_eq!(r.audio_config.audio_encoding, "MP3");
    assert!(r.audio_config.speaking_rate.is_none());
    assert!(r.audio_config.sample_rate_hertz.is_none());
}

#[test]
fn response_decodes_base64() {
    let ok = GcpResponse { audio_content: "aGVsbG8=".to_string() };
    assert_eq!(ok.decode().unwrap(), b"hello".to_vec());
    let empty = GcpResponse { audio_content: String::new() };
    assert_eq!(empty.decode().unwrap(), Vec::<u8>::new());
    let bad = GcpResponse { audio_content: "not base64!".to_string() };
    assert!(matches!(bad.decode(), Err(TtsError::DecodeError(_))));
}

#[test]
fn file_names_are_random_alphanumeric() {
    let a = engine("k").audio_file_name();
    assert_eq!(a.len(), 36);
    assert!(a.ends_with(".mp3"));
    assert!(a[..32].chars().all(|c| c.is_ascii_alphanumeric()));
    let w = random_file_name("wav");
    assert_eq!(w.len(), 36);
    assert!(w.ends_with(".wav"));
    assert_ne!(random_file_name("wav"), random_file_name("wav"));
}

#[test]
fn file_names_are_made_from_the_draws() {
    let draws: Vec<u8> = b"abcdefghijklmnopqrstuvwxyzABCD01".to_vec();
    assert_eq!(ttsbot::gcp::file_name_from(&draws, "mp3"), "abcdefghijklmnopqrstuvwxyzABCD01.mp3");
}
