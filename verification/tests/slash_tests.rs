use ttsbot::slash::{
    extract_option, interaction_reply, lang, operation_for, set_voice, slash_commands, CommandData,
    CommandOption, Operation, OptionValue, Response, SlashError, ValueKind,
};

fn opt(name: &str, kind: ValueKind, json: &str) -> CommandOption {
    CommandOption { name: name.into(), value: Some(OptionValue { kind, json: json.into() }) }
}

fn data(options: Vec<CommandOption>) -> CommandData {
    CommandData { name: "lang".into(), options }
}

#[test]
fn options_read_as_text() {
    let d = data(vec![
        opt("s", ValueKind::Text("ja-JP".into()), "\"ja-JP\""),
        opt("n", ValueKind::Null, "null"),
        opt("b", ValueKind::Bool(true), "true"),
        opt("f", ValueKind::Bool(false), "false"),
        opt("x", ValueKind::Number, "1.5"),
        opt("o", ValueKind::Other, "[1,2]"),
        CommandOption { name: "none".into(), value: None },
        opt("s", ValueKind::Text("second".into()), "\"second\""),
    ]);
    assert_eq!(extract_option(&d, "s"), Some("ja-JP".to_string()));
    assert_eq!(extract_option(&d, "n"), Some("".to_string()));
    assert_eq!(extract_option(&d, "b"), Some("true".to_string()));
    assert_eq!(extract_option(&d, "f"), Some("false".to_string()));
    assert_eq!(extract_option(&d, "x"), Some("1.5".to_string()));
    assert_eq!(extract_option(&d, "o"), Some("[1,2]".to_string()));
    assert_eq!(extract_option(&d, "none"), None);
    assert_eq!(extract_option(&d, "missing"), None);
}

#[test]
fn operations_and_replies() {
    assert_eq!(operation_for("lang"), Ok(Operation::Lang));
    assert_eq!(operation_for("voice"), Err(SlashError::UnknownCommand));
    let r = interaction_reply(Some(Response { message: "m".into(), embeds: vec![], ephemeral: true }));
    assert_eq!((r.kind, r.content.as_deref(), r.flags), (4, Some("m"), 64));
    let r = interaction_reply(Some(Response { message: "m".into(), embeds: vec!["{}".into()], ephemeral: true }));
    assert_eq!((r.kind, r.flags, r.embeds.len()), (4, 64, 0));
    let r = interaction_reply(Some(Response { message: "m".into(), embeds: vec!["{}".into()], ephemeral: false }));
    assert_eq!((r.kind, r.flags, r.embeds.len()), (4, 0, 1));
    let r = interaction_reply(None);
    assert_eq!((r.kind, r.content, r.flags), (5, None, 0));
}

#[test]
fn lang_command() {
    let c = lang(&data(vec![opt("lang", ValueKind::Text("en-US".into()), "\"en-US\"")])).ok().unwrap();
    assert_eq!(c.value, "en-US");
    assert_eq!(c.reply.message, "Set Language to: en-US");
    assert!(!c.reply.ephemeral);
    assert!(matches!(lang(&data(vec![])), Err(SlashError::NoOption)));
}

#[test]
fn voice_command() {
    let d = data(vec![opt("model", ValueKind::Text("JP-Male-Normal-A".into()), "\"JP-Male-Normal-A\"")]);
    let c = set_voice(&d, "Voice model updated:");
    assert_eq!(c.value, "JP-Male-Normal-A");
    assert_eq!(c.reply.message, "Voice model updated: **JP-Male-Normal-A**");
}

#[test]
fn registered_commands() {
    let v = slash_commands();
    assert_eq!(v.len(), 2);
    assert_eq!(v[0].name, "lang");
    assert_eq!(v[0].options[0].choices[1].value, "en-US");
    assert_eq!(v[1].name, "voice");
    let values: Vec<&str> = v[1].options[0].choices.iter().map(|c| c.value.as_str()).collect();
    assert_eq!(values, vec![
        "JP-Female-Normal-A", "JP-Female-Normal-B", "JP-Female-Premium-A", "JP-Female-Premium-B",
        "JP-Male-Normal-A", "JP-Male-Normal-B", "JP-Male-Premium-A", "JP-Male-Premium-B",
    ]);
    for c in &v[1].options[0].choices {
        assert!(ttsbot::tts::tts_type_for_model(&c.value, "k".into()).is_some());
    }
}
