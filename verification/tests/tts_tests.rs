use ttsbot::gcp::TtsError;
use ttsbot::gcp::Real;
use ttsbot::tts::{
    create_tts_engine, gcp_engine_for_model, tts_type_for_model, OpenJTalk, OpenJTalkConfig, TtsKind,
    TtsType, HALF, MEI_ALL_PASS, MEI_POSTFILTER, ONE, ZERO,
};

fn gcp(t: TtsType) -> (String, String, String, String, String) {
    let e = create_tts_engine(t).unwrap().ensure_gcp();
    let c = e.config;
    (c.access_token, c.voice.language_code, c.voice.name, c.voice.ssml_gender, c.audio_config.audio_encoding)
}

#[test]
fn cloud_voices_build_their_engines() {
    let cases = [
        (TtsType::GcpJpFemaleNormalA("t".into()), "ja-JP-Standard-A", "FEMALE"),
        (TtsType::GcpJpFemaleNormalB("t".into()), "ja-JP-Standard-B", "FEMALE"),
        (TtsType::GcpJpFemalePremiumA("t".into()), "ja-JP-Wavenet-A", "FEMALE"),
        (TtsType::GcpJpFemalePremiumB("t".into()), "ja-JP-Wavenet-B", "FEMALE"),
        (TtsType::GcpJpMaleNormalA("t".into()), "ja-JP-Standard-C", "MALE"),
        (TtsType::GcpJpMaleNormalB("t".into()), "ja-JP-Standard-D", "MALE"),
        (TtsType::GcpJpMalePremiumA("t".into()), "ja-JP-Wavenet-C", "MALE"),
        (TtsType::GcpJpMalePremiumB("t".into()), "ja-JP-Wavenet-D", "MALE"),
    ];
    for (t, name, gender) in cases {
        let (token, lang, n, g, enc) = gcp(t);
        assert_eq!(token, "t");
        assert_eq!(lang, "ja-JP");
        assert_eq!(n, name);
        assert_eq!(g, gender);
        assert_eq!(enc, "MP3");
    }
}

#[test]
fn open_jtalk_voice_builds_mei_normal() {
    let e: OpenJTalk = match create_tts_engine(TtsType::OpenJTalkMeiNormal).unwrap() {
        TtsKind::OpenJTalk(e) => e,
        TtsKind::Gcp(_) => panic!("expected Open JTalk"),
    };
    let c = e.config();
    assert_eq!(c.dictionary, "/usr/local/dic/");
    assert_eq!(c.hts_path, "/root/.config/resources/voice/mei_normal.htsvoice");
    assert_eq!(c.all_pass, Some(Real(MEI_ALL_PASS)));
    assert_eq!(f64::from_bits(MEI_ALL_PASS), 0.54);
    assert_eq!(f64::from_bits(c.postfilter_coef.0), 0.8);
    assert_eq!(c.postfilter_coef, Real(MEI_POSTFILTER));
    assert_eq!(c.speed_rate, Real(ONE));
    assert!(c.sampling.is_none());
}

#[test]
fn open_jtalk_defaults() {
    let c = OpenJTalkConfig::default();
    assert_eq!(c.dictionary, "");
    assert_eq!(f64::from_bits(c.postfilter_coef.0), 0.0);
    assert_eq!(f64::from_bits(c.speed_rate.0), 1.0);
    assert_eq!(f64::from_bits(c.unvoiced_threshold.0), 0.5);
    assert_eq!(f64::from_bits(c.spectrum_weight.0), 1.0);
    assert_eq!(f64::from_bits(c.spectrum_f0.0), 1.0);
    assert_eq!(c.additional_half_tone, Real(ZERO));
    assert_eq!(c.unvoiced_threshold, Real(HALF));
    assert!(c.all_pass.is_none() && c.frame_period.is_none());
}

#[test]
fn model_names_select_voices() {
    assert!(matches!(tts_type_for_model("JP-Male-Premium-B", "k".into()), Some(TtsType::GcpJpMalePremiumB(ref k)) if k == "k"));
    assert!(matches!(tts_type_for_model("JP-Female-Normal-A", "k".into()), Some(TtsType::GcpJpFemaleNormalA(_))));
    assert!(tts_type_for_model("jp-female-normal-a", "k".into()).is_none());
    assert!(tts_type_for_model("", "k".into()).is_none());
    let e = gcp_engine_for_model("JP-Male-Normal-B", "tok".into()).unwrap();
    assert_eq!(e.config.voice.name, "ja-JP-Standard-D");
    assert_eq!(e.config.access_token, "tok");
    assert!(gcp_engine_for_model("OpenJTalk", "tok".into()).is_none());
}


#[test]
fn open_jtalk_runs_come_to_their_exit_status() {
    assert!(OpenJTalk::run_outcome(true, "o".into(), "e".into(), Some(0)).is_ok());
    match OpenJTalk::run_outcome(false, "out".into(), "err".into(), Some(2)) {
        Err(TtsError::CommandError(o, e, c)) => assert_eq!((o.as_str(), e.as_str(), c), ("out", "err", Some(2))),
        other => panic!("unexpected {:?}", other),
    }
}
