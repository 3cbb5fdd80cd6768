//! Slash commands: reading options, choosing the operation, the replies,
//! and the definitions registered with Discord.

use vstd::prelude::*;

use crate::text::{replace, replaced, same_text};
use crate::tts::{model_name, voice_models, VoiceModel};

verus! {

/// The kind of an option's value.
pub enum ValueKind {
    Text(String),
    Null,
    Bool(bool),
    Number,
    Other,
}

/// An option's value: its kind, and its JSON text.
pub struct OptionValue {
    pub kind: ValueKind,
    pub json: String,
}

/// A command option as received.
pub struct CommandOption {
    pub name: String,
    pub value: Option<OptionValue>,
}

/// A slash command as received: its name and options.
pub struct CommandData {
    pub name: String,
    pub options: Vec<CommandOption>,
}

/// The text an option's value reads as: a string as it is, null as empty,
/// a boolean as `true` or `false`, anything else as its JSON text.
pub open spec fn option_text(v: OptionValue) -> Seq<char> {
    match v.kind {
        ValueKind::Text(s) => s@,
        ValueKind::Null => Seq::<char>::empty(),
        ValueKind::Bool(b) => if b { "true"@ } else { "false"@ },
        ValueKind::Number => v.json@,
        ValueKind::Other => v.json@,
    }
}

/// The first option named `key`.
pub open spec fn find_named(opts: Seq<CommandOption>, key: Seq<char>) -> Option<CommandOption>
    decreases opts.len(),
{
    if opts.len() == 0 {
        None
    } else if opts[0].name@ == key {
        Some(opts[0])
    } else {
        find_named(opts.drop_first(), key)
    }
}

/// The value of the first option named `key`, if it has one.
pub open spec fn named_value(opts: Seq<CommandOption>, key: Seq<char>) -> Option<OptionValue> {
    match find_named(opts, key) {
        Some(o) => o.value,
        None => None,
    }
}

fn value_text(v: &OptionValue) -> (s: String)
    ensures
        s@ == option_text(*v),
{
    match &v.kind {
        ValueKind::Text(s) => s.clone(),
        ValueKind::Null => String::new(),
        ValueKind::Bool(b) => if *b { String::from_str("true") } else { String::from_str("false") },
        ValueKind::Number => v.json.clone(),
        ValueKind::Other => v.json.clone(),
    }
}

/// The text of the first option named `key`, when it has a value.
pub fn extract_option(data: &CommandData, key: &str) -> (r: Option<String>)
    ensures
        named_value(data.options@, key@) is None ==> r is None,
        named_value(data.options@, key@) matches Some(v) ==> (r matches Some(s) && s@ == option_text(v)),
{
    let mut i: usize = 0;
    assert(data.options@.skip(0) =~= data.options@);
    while i < data.options.len()
        invariant
            i <= data.options@.len(),
            find_named(data.options@, key@) == find_named(data.options@.skip(i as int), key@),
        decreases data.options@.len() - i,
    {
        let o = &data.options[i];
        if same_text(o.name.as_str(), key) {
            return match &o.value {
                Some(v) => Some(value_text(v)),
                None => None,
            };
        }
        assert(data.options@.skip(i as int).drop_first() =~= data.options@.skip(i + 1));
        i = i + 1;
    }
    None
}

/// The operations slash commands run.
#[derive(Clone, Copy, Debug, PartialEq, Eq, Structural)]
pub enum Operation {
    Lang,
    SetVoice,
}

/// Why a slash command was refused.
#[derive(Clone, Copy, Debug, PartialEq, Eq, Structural)]
pub enum SlashError {
    /// The command's name is not one the bot dispatches.
    UnknownCommand,
    /// A required option is missing.
    NoOption,
}

/// The operation a command name dispatches to: only `lang` is dispatched.
pub fn operation_for(name: &str) -> (r: Result<Operation, SlashError>)
    ensures
        name@ == "lang"@ ==> r == Ok::<Operation, SlashError>(Operation::Lang),
        name@ != "lang"@ ==> r == Err::<Operation, SlashError>(SlashError::UnknownCommand),
{
    if same_text(name, "lang") {
        Ok(Operation::Lang)
    } else {
        Err(SlashError::UnknownCommand)
    }
}

/// A reply to a slash command; embeds are held as JSON texts.
pub struct Response {
    pub message: String,
    pub embeds: Vec<String>,
    pub ephemeral: bool,
}

/// The interaction callback sent back: Discord's callback type 4, a message
/// with data, or type 5, acknowledged with the reply to follow.
pub struct InteractionReply {
    pub kind: u8,
    pub content: Option<String>,
    pub embeds: Vec<String>,
    pub flags: u64,
}

/// The callback for an operation's response: with a response, a message
/// callback with its text, flag 64 and no embeds when it is ephemeral, its
/// embeds and flag 0 otherwise; without one, an acknowledgement.
pub fn interaction_reply(response: Option<Response>) -> (r: InteractionReply)
    ensures
        response matches Some(resp) ==> {
            &&& r.kind == 4
            &&& r.content == Some(resp.message)
            &&& (if resp.ephemeral { r.embeds@.len() == 0 } else { r.embeds == resp.embeds })
            &&& r.flags == (if resp.ephemeral { 64u64 } else { 0u64 })
        },
        response is None ==> r.kind == 5 && r.content is None && r.embeds@.len() == 0 && r.flags == 0,
{
    match response {
        Some(resp) => {
            if resp.ephemeral {
                InteractionReply { kind: 4, content: Some(resp.message), embeds: Vec::new(), flags: 64 }
            } else {
                InteractionReply { kind: 4, content: Some(resp.message), embeds: resp.embeds, flags: 0 }
            }
        },
        None => InteractionReply { kind: 5, content: None, embeds: Vec::new(), flags: 0 },
    }
}

/// A setting to store and the reply to send once it is stored.
pub struct SettingChange {
    pub value: String,
    pub reply: Response,
}

/// The `lang` command: the value of its `lang` option is stored as the
/// guild's locale, and the reply reads `Set Language to: <value>`.
pub fn lang(data: &CommandData) -> (r: Result<SettingChange, SlashError>)
    ensures
        named_value(data.options@, "lang"@) is None ==> r == Err::<SettingChange, SlashError>(SlashError::NoOption),
        named_value(data.options@, "lang"@) matches Some(v) ==> (r matches Ok(c) && {
            &&& c.value@ == option_text(v)
            &&& c.reply.message@ == "Set Language to: "@ + c.value@
            &&& c.reply.embeds@.len() == 0
            &&& !c.reply.ephemeral
        }),
{
    let value = match extract_option(data, "lang") {
        Some(v) => v,
        None => return Err(SlashError::NoOption),
    };
    let mut message = String::from_str("Set Language to: ");
    message.append(value.as_str());
    Ok(SettingChange { value, reply: Response { message, embeds: Vec::new(), ephemeral: false } })
}

/// The voice model the `voice` command stores: the JSON text of its first
/// option's value without double quotes.
pub open spec fn voice_choice(data: CommandData) -> Seq<char> {
    replaced(data.options@[0].value->0.json@, "\""@, Seq::<char>::empty())
}

/// The `voice` command: the voice model to store, and the reply built from
/// the localised confirmation `confirmation`: `<confirmation> **<model>**`.
pub fn set_voice(data: &CommandData, confirmation: &str) -> (r: SettingChange)
    requires
        data.options@.len() > 0,
        data.options@[0].value is Some,
    ensures
        r.value@ == voice_choice(*data),
        r.reply.message@ == confirmation@ + " **"@ + r.value@ + "**"@,
        r.reply.embeds@.len() == 0,
        !r.reply.ephemeral,
{
    let first = &data.options[0];
    let value = match &first.value {
        Some(v) => v,
        None => { return vstd::pervasive::unreached(); },
    };
    proof {
        reveal_strlit("\"");
        reveal_strlit("");
    }
    let model = replace(value.json.as_str(), "\"", "");
    assert(""@ =~= Seq::<char>::empty());
    let mut message = String::from_str(confirmation);
    message.append(" **");
    message.append(model.as_str());
    message.append("**");
    SettingChange { value: model, reply: Response { message, embeds: Vec::new(), ephemeral: false } }
}


/// A choice offered for an option: shown name and value.
pub struct Choice {
    pub name: String,
    pub value: String,
}

/// An option of a registered command.
pub struct OptionSpec {
    pub name: String,
    pub description: String,
    /// The option type (3 is a string).
    pub kind: u8,
    pub required: bool,
    pub choices: Vec<Choice>,
}

/// A command registered with Discord.
pub struct SlashCommandSpec {
    pub name: String,
    pub description: String,
    pub options: Vec<OptionSpec>,
}

fn choice(name: &str, value: &str) -> (c: Choice)
    ensures
        c.name@ == name@,
        c.value@ == value@,
{
    Choice { name: String::from_str(name), value: String::from_str(value) }
}

fn model_choice(name: &'static str) -> (c: Choice)
    ensures
        c.name@ == name@,
        c.value@ == name@,
{
    choice(name, name)
}

/// Whether `o` is a required string option named `name`, described as
/// `description`.
pub open spec fn is_string_option(o: OptionSpec, name: Seq<char>, description: Seq<char>) -> bool {
    &&& o.name@ == name
    &&& o.description@ == description
    &&& o.kind == 3
    &&& o.required
}

/// The commands registered with Discord: `lang`, choosing Japanese (`ja-JP`)
/// or English (`en-US`), and `voice`, choosing one of the eight voice models
/// by its model name.
pub fn slash_commands() -> (v: Vec<SlashCommandSpec>)
    ensures
        v@.len() == 2,
        v@[0].name@ == "lang"@,
        v@[0].description@ == "Change Bot Language"@,
        v@[0].options@.len() == 1,
        is_string_option(v@[0].options@[0], "lang"@, "Language"@),
        v@[0].options@[0].choices@.len() == 2,
        v@[0].options@[0].choices@[0].name@ == "Japanese"@,
        v@[0].options@[0].choices@[0].value@ == "ja-JP"@,
        v@[0].options@[0].choices@[1].name@ == "English"@,
        v@[0].options@[0].choices@[1].value@ == "en-US"@,
        v@[1].name@ == "voice"@,
        v@[1].description@ == "Change Text-to-Speech Voice Model"@,
        v@[1].options@.len() == 1,
        is_string_option(v@[1].options@[0], "model"@, "Voice Model"@),
        v@[1].options@[0].choices@.len() == 8,
        forall|i: int| 0 <= i < 8 ==> {
            &&& (#[trigger] v@[1].options@[0].choices@[i]).name@ == model_name(voice_models()[i])
            &&& v@[1].options@[0].choices@[i].value@ == model_name(voice_models()[i])
        },
{
    let mut lang_choices: Vec<Choice> = Vec::new();
    lang_choices.push(choice("Japanese", "ja-JP"));
    lang_choices.push(choice("English", "en-US"));
    let mut lang_options: Vec<OptionSpec> = Vec::new();
    lang_options.push(OptionSpec {
        name: String::from_str("lang"),
        description: String::from_str("Language"),
        kind: 3,
        required: true,
        choices: lang_choices,
    });
    let mut voices: Vec<Choice> = Vec::new();
    voices.push(model_choice("JP-Female-Normal-A"));
    voices.push(model_choice("JP-Female-Normal-B"));
    voices.push(model_choice("JP-Female-Premium-A"));
    voices.push(model_choice("JP-Female-Premium-B"));
    voices.push(model_choice("JP-Male-Normal-A"));
    voices.push(model_choice("JP-Male-Normal-B"));
    voices.push(model_choice("JP-Male-Premium-A"));
    voices.push(model_choice("JP-Male-Premium-B"));
    let mut voice_options: Vec<OptionSpec> = Vec::new();
    voice_options.push(OptionSpec {
        name: String::from_str("model"),
        description: String::from_str("Voice Model"),
        kind: 3,
        required: true,
        choices: voices,
    });
    let mut v: Vec<SlashCommandSpec> = Vec::new();
    v.push(SlashCommandSpec {
        name: String::from_str("lang"),
        description: String::from_str("Change Bot Language"),
        options: lang_options,
    });
    v.push(SlashCommandSpec {
        name: String::from_str("voice"),
        description: String::from_str("Change Text-to-Speech Voice Model"),
        options: voice_options,
    });
    v
}

} // verus!
