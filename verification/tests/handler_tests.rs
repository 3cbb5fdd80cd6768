use ttsbot::handler::{joined_channel_key_of, IncomingMessage, SpeechAction, SpeechEvent, SpeechFlow, SpeechStage};

fn msg(bot: bool, content: &str, channel: u64) -> IncomingMessage {
    IncomingMessage { author_is_bot: bot, content: content.into(), channel_id: channel }
}

fn run(m: IncomingMessage, events: Vec<SpeechEvent>) -> (SpeechStage, SpeechAction) {
    let (mut flow, mut action) = SpeechFlow::start(m);
    for e in events {
        let (f, a) = flow.step(e);
        flow = f;
        action = a;
    }
    (flow.stage, action)
}

fn happy(content: &str, model: &str) -> Vec<SpeechEvent> {
    let _ = content;
    vec![
        SpeechEvent::VoiceState { guild_id: Some(7), bot_in_voice: true },
        SpeechEvent::JoinedChannel(Some(42)),
        SpeechEvent::VoiceManager(true),
        SpeechEvent::VoiceModel { model: Some(model.into()), token: "tok".into() },
    ]
}

#[test]
fn joined_channel_keys() {
    assert_eq!(joined_channel_key_of(0), "bot:channel:joined:0");
    assert_eq!(joined_channel_key_of(334017809090740224), "bot:channel:joined:334017809090740224");
}

#[test]
fn bots_and_prefixed_commands_are_ignored() {
    let (f, a) = SpeechFlow::start(msg(true, "hello", 42));
    assert_eq!(f.stage, SpeechStage::Finished);
    assert!(matches!(a, SpeechAction::Ignore));
    let (f, _) = SpeechFlow::start(msg(false, "z.join", 42));
    assert_eq!(f.stage, SpeechStage::Finished);
    let (f, a) = SpeechFlow::start(msg(false, "hello", 42));
    assert_eq!(f.stage, SpeechStage::AwaitVoiceState);
    assert!(matches!(a, SpeechAction::CheckVoiceState));
}

#[test]
fn a_message_in_the_joined_channel_is_spoken() {
    let (stage, action) = run(msg(false, "こんにちは\n世界", 42), happy("", "JP-Female-Premium-A"));
    assert_eq!(stage, SpeechStage::AwaitSpeech { guild_id: 7 });
    match action {
        SpeechAction::Synthesize { engine, text } => {
            assert_eq!(text, "こんにちは．世界");
            assert_eq!(engine.config.voice.name, "ja-JP-Wavenet-A");
            assert_eq!(engine.config.access_token, "tok");
        }
        _ => panic!("expected synthesis"),
    }
    let mut events = happy("", "JP-Male-Normal-A");
    events.push(SpeechEvent::SpeechSaved(Some("abc.mp3".into())));
    let (stage, action) = run(msg(false, "hi", 42), events);
    assert_eq!(stage, SpeechStage::Finished);
    assert!(matches!(action, SpeechAction::Play { guild_id: 7, ref path } if path == "abc.mp3"));
}

#[test]
fn the_voice_state_is_checked_first() {
    let (f, a) = SpeechFlow::start(msg(false, "hi", 42));
    let (f2, a2) = f.step(SpeechEvent::VoiceState { guild_id: Some(7), bot_in_voice: true });
    assert!(matches!(a, SpeechAction::CheckVoiceState));
    assert!(matches!(a2, SpeechAction::FetchJoinedChannel { ref key } if key == "bot:channel:joined:7"));
    assert_eq!(f2.stage, SpeechStage::AwaitJoinedChannel { guild_id: 7 });
    let (stage, _) = run(msg(false, "hi", 42), vec![SpeechEvent::VoiceState { guild_id: Some(7), bot_in_voice: false }]);
    assert_eq!(stage, SpeechStage::Finished);
    let (stage, _) = run(msg(false, "hi", 42), vec![SpeechEvent::VoiceState { guild_id: None, bot_in_voice: true }]);
    assert_eq!(stage, SpeechStage::Finished);
}

#[test]
fn other_channels_and_command_echoes_are_not_spoken() {
    let vs = SpeechEvent::VoiceState { guild_id: Some(7), bot_in_voice: true };
    let (stage, _) = run(msg(false, "hi", 42), vec![vs, SpeechEvent::JoinedChannel(Some(43))]);
    assert_eq!(stage, SpeechStage::Finished);
    // Without a stored joined channel the message is not spoken.
    let vs = SpeechEvent::VoiceState { guild_id: Some(7), bot_in_voice: true };
    let (stage, _) = run(msg(false, "hi", 42), vec![vs, SpeechEvent::JoinedChannel(None)]);
    assert_eq!(stage, SpeechStage::Finished);
    let vs = SpeechEvent::VoiceState { guild_id: Some(7), bot_in_voice: true };
    let (stage, _) = run(msg(false, "</lang:123456789012345678> ja-JP", 42), vec![vs, SpeechEvent::JoinedChannel(Some(42))]);
    assert_eq!(stage, SpeechStage::Finished);
    let vs = SpeechEvent::VoiceState { guild_id: Some(7), bot_in_voice: true };
    let (stage, _) = run(msg(false, "<x:12345> short id", 42), vec![vs, SpeechEvent::JoinedChannel(Some(42))]);
    assert_eq!(stage, SpeechStage::AwaitVoiceManager { guild_id: 7 });
}

#[test]
fn missing_manager_model_or_audio_stop() {
    let (stage, _) = run(msg(false, "hi", 42), vec![
        SpeechEvent::VoiceState { guild_id: Some(7), bot_in_voice: true },
        SpeechEvent::JoinedChannel(Some(42)),
        SpeechEvent::VoiceManager(false),
    ]);
    assert_eq!(stage, SpeechStage::Finished);
    let (stage, _) = run(msg(false, "hi", 42), happy("", "OpenJTalk"));
    assert_eq!(stage, SpeechStage::Finished);
    let mut events = happy("", "JP-Male-Normal-A");
    events.pop();
    events.push(SpeechEvent::VoiceModel { model: None, token: "tok".into() });
    let (stage, _) = run(msg(false, "hi", 42), events);
    assert_eq!(stage, SpeechStage::Finished);
    let mut events = happy("", "JP-Male-Normal-A");
    events.push(SpeechEvent::SpeechSaved(None));
    let (stage, action) = run(msg(false, "hi", 42), events);
    assert_eq!(stage, SpeechStage::Finished);
    assert!(matches!(action, SpeechAction::Ignore));
}

#[test]
fn out_of_order_reports_stop() {
    let (stage, action) = run(msg(false, "hi", 42), vec![SpeechEvent::VoiceManager(true)]);
    assert_eq!(stage, SpeechStage::Finished);
    assert!(matches!(action, SpeechAction::Ignore));
}
