use ttsbot::renewer::{renew_start, renew_step, RenewAction, RenewEvent};
use ttsbot::api::bearer_credential;
use ttsbot::gcp::{GcpAudioConfigRequest, GcpConfig, GcpTts, GcpVoiceRequest};
use ttsbot::handler::joined_channel_key_of;
use ttsbot::i18n::{lang_for, Lang};
use ttsbot::slash::slash_commands;
use ttsbot::text::{decimal_string, parse_u64};
use ttsbot::tts::{gcp_engine_for_model, tts_type_for_model};

#[test]
fn decimal_parses_back() {
    for n in [0u64, 1, 9, 10, 99, 334017809090740224, u64::MAX] {
        assert_eq!(parse_u64(&decimal_string(n as u128)), Some(n));
    }
}

#[test]
fn distinct_numbers_render_distinctly() {
    assert_ne!(decimal_string(10), decimal_string(100));
    assert_ne!(decimal_string(1), decimal_string(11));
}

#[test]
fn joined_keys_of_distinct_guilds_differ() {
    let a = joined_channel_key_of(1);
    let b = joined_channel_key_of(11);
    assert_eq!(a, "bot:channel:joined:1");
    assert_eq!(b, "bot:channel:joined:11");
    assert_ne!(a, b);
}

#[test]
fn every_offered_voice_is_spoken() {
    let commands = slash_commands();
    let voice = &commands[1];
    assert_eq!(voice.name, "voice");
    let choices = &voice.options[0].choices;
    assert_eq!(choices.len(), 8);
    for c in choices {
        assert!(tts_type_for_model(&c.value, "k".to_string()).is_some(), "{}", c.value);
        assert!(gcp_engine_for_model(&c.value, "k".to_string()).is_some(), "{}", c.value);
    }
    assert!(tts_type_for_model("JP-Female-Normal-A", "k".to_string()).is_some());
    assert!(tts_type_for_model("JP-Female-Normal-C", "k".to_string()).is_none());
}

#[test]
fn offered_languages_are_selected() {
    let commands = slash_commands();
    let lang = &commands[0];
    let values: Vec<&str> = lang.options[0].choices.iter().map(|c| c.value.as_str()).collect();
    assert_eq!(values, vec!["ja-JP", "en-US"]);
    assert_eq!(lang_for(values[0]), Lang::JaJp);
    assert_eq!(lang_for(values[1]), Lang::EnUs);
}

#[test]
fn bearer_credential_round_trips() {
    let voice = GcpVoiceRequest {
        language_code: "ja-JP".to_string(),
        name: "ja-JP-Standard-A".to_string(),
        ssml_gender: "FEMALE".to_string(),
    };
    let credential = bearer_credential("ya29.a0token");
    assert_eq!(credential, "Bearer ya29.a0token");
    let engine = GcpTts::from_config(GcpConfig::new(&credential, voice, GcpAudioConfigRequest::default())).unwrap();
    assert_eq!(engine.bearer_token(), "ya29.a0token");
}

/// Runs the renewal schedule on `events`, returning every action asked for.
fn renewal_stream(events: &[RenewEvent]) -> Vec<RenewAction> {
    let (mut stage, mut stream) = renew_start();
    for e in events {
        let (next, actions) = renew_step(stage, *e);
        stage = next;
        stream.extend(actions);
    }
    stream
}

#[test]
fn renewal_cycles_are_bounded_and_spaced() {
    let mut events = vec![RenewEvent::SlotPresent(true)];
    events.extend([RenewEvent::Renewed(false); 5]);
    events.push(RenewEvent::SlotPresent(true));
    events.push(RenewEvent::Renewed(false));
    events.push(RenewEvent::Renewed(true));
    events.push(RenewEvent::SlotPresent(true));
    let stream = renewal_stream(&events);
    let mut since_pause = 0;
    for (k, a) in stream.iter().enumerate() {
        match a {
            RenewAction::Sleep { seconds: 1000 } => since_pause = 0,
            RenewAction::Renew => {
                let before = stream[k - 1];
                if since_pause == 0 {
                    assert_eq!(before, RenewAction::CheckSlot);
                } else {
                    assert_eq!(before, RenewAction::Sleep { seconds: 3 });
                }
                since_pause += 1;
                assert!(since_pause <= 5);
            }
            _ => {}
        }
    }
    let renewals = stream.iter().filter(|a| **a == RenewAction::Renew).count();
    assert_eq!(renewals, 5 + 2 + 1);
}
