use ttsbot::commands::{
    down_reply, invite_url, join_start, leave_start, ping_reply, voice_step, MessageId, Reply,
    VoiceAction, VoiceEvent, VoiceStage,
};

#[test]
fn invite_links() {
    assert_eq!(
        invite_url("123", None, None),
        "https://discord.com/oauth2/authorize?client_id=123&permissions=8&scope=bot%20applications.commands"
    );
    assert_eq!(
        invite_url("123", Some("2048".into()), Some("bot".into())),
        "https://discord.com/oauth2/authorize?client_id=123&permissions=2048&scope=bot"
    );
    assert_eq!(
        invite_url("1", Some("lots".into()), Some("a~b_c.d-e é".into())),
        "https://discord.com/oauth2/authorize?client_id=1&permissions=8&scope=a~b_c.d-e%20%C3%A9"
    );
}

#[test]
fn ping_replies() {
    assert!(matches!(ping_reply(false, Some(Some(5))), Reply::Text(ref t) if t == "Unexpected Error"));
    assert!(matches!(ping_reply(true, None), Reply::Localized(MessageId::PingError)));
    assert!(matches!(ping_reply(true, Some(None)), Reply::Localized(MessageId::PingRetry)));
    assert!(matches!(ping_reply(true, Some(Some(42))), Reply::Text(ref t) if t == "🏓 Pong! **42** ms"));
}

#[test]
fn down_replies() {
    assert_eq!(down_reply(true), (MessageId::ShutdownSuccess, true));
    assert_eq!(down_reply(false), (MessageId::ShutdownFail, false));
    assert_eq!(MessageId::ShutdownSuccess.key(), "ShutdownSuccess");
    assert_eq!(MessageId::UpdateVoiceModel.key(), "UpdateVoiceModel");
}

#[test]
fn join_flow() {
    let (s, a) = join_start(1, None, 9);
    assert_eq!(s, VoiceStage::Done);
    assert_eq!(a, vec![VoiceAction::Reply(MessageId::NotInVoiceChannel)]);
    let (s, a) = join_start(1, Some(5), 9);
    assert_eq!(a, vec![VoiceAction::CheckManager]);
    let (s2, a2) = voice_step(s, VoiceEvent::Manager(false));
    assert_eq!((s2, a2), (VoiceStage::Done, vec![VoiceAction::Reply(MessageId::UnexpectedError)]));
    let (s, a) = voice_step(s, VoiceEvent::Manager(true));
    assert_eq!(a, vec![VoiceAction::Connect { guild_id: 1, channel_id: 5 }]);
    let (s_ok, a_ok) = voice_step(s, VoiceEvent::Connected(true));
    assert_eq!(s_ok, VoiceStage::Done);
    assert_eq!(a_ok, vec![VoiceAction::Reply(MessageId::Joined), VoiceAction::StoreJoinedChannel { guild_id: 1, channel_id: 9 }]);
    let (_, a_err) = voice_step(s, VoiceEvent::Connected(false));
    assert_eq!(a_err, vec![
        VoiceAction::Reply(MessageId::JoinFailed),
        VoiceAction::Reply(MessageId::Joined),
        VoiceAction::StoreJoinedChannel { guild_id: 1, channel_id: 9 },
    ]);
}

#[test]
fn leave_flow() {
    let (s, a) = leave_start(3);
    assert_eq!(a, vec![VoiceAction::CheckManager]);
    let (_, a) = voice_step(s, VoiceEvent::Manager(false));
    assert_eq!(a, vec![VoiceAction::Reply(MessageId::UnexpectedError)]);
    let (s, a) = voice_step(s, VoiceEvent::Manager(true));
    assert_eq!(a, vec![VoiceAction::CheckCall { guild_id: 3 }]);
    let (_, a) = voice_step(s, VoiceEvent::InCall(false));
    assert_eq!(a, vec![VoiceAction::Reply(MessageId::NotInVoiceChannel), VoiceAction::Reply(MessageId::LeftVoiceChannel)]);
    let (s, a) = voice_step(s, VoiceEvent::InCall(true));
    assert_eq!(a, vec![VoiceAction::Disconnect { guild_id: 3 }]);
    let (_, a) = voice_step(s, VoiceEvent::Disconnected(true));
    assert_eq!(a, vec![VoiceAction::Reply(MessageId::LeftVoiceChannel)]);
    let (d, a) = voice_step(s, VoiceEvent::Disconnected(false));
    assert_eq!(d, VoiceStage::Done);
    assert_eq!(a, vec![VoiceAction::Reply(MessageId::LeaveFailed), VoiceAction::Reply(MessageId::LeftVoiceChannel)]);
    assert_eq!(voice_step(VoiceStage::Done, VoiceEvent::Manager(true)), (VoiceStage::Done, vec![]));
}
