use ttsbot::enum_product::{enum_product, extract_groups, listup, MacroError, TokenTree};

fn lit(s: &str) -> TokenTree {
    TokenTree::Literal(format!("\"{}\"", s))
}

fn list(items: &[&str]) -> TokenTree {
    let mut v = Vec::new();
    for (i, s) in items.iter().enumerate() {
        if i > 0 {
            v.push(TokenTree::Punct(','));
        }
        v.push(lit(s));
    }
    TokenTree::Group(v)
}

fn input(public: bool, name: &str, lists: &[&[&str]]) -> Vec<TokenTree> {
    let mut body = Vec::new();
    for (i, l) in lists.iter().enumerate() {
        if i > 0 {
            body.push(TokenTree::Punct(','));
        }
        body.push(list(l));
    }
    let mut t = Vec::new();
    if public {
        t.push(TokenTree::Ident("pub".into()));
    }
    t.push(TokenTree::Ident("enum".into()));
    t.push(TokenTree::Ident(name.into()));
    t.push(TokenTree::Group(body));
    t
}

#[test]
fn code_product_as_in_the_generator_sample() {
    let p = enum_product(&input(true, "Code", &[&["ja-JP", "en-US", "en-UK"], &["Standard", "Wavenet"], &["A", "B", "C", "D"]])).unwrap();
    assert!(p.public);
    assert_eq!(p.name, "Code");
    assert_eq!(p.strings.len(), 24);
    assert_eq!(p.idents[0], "JaJPStandardA");
    assert_eq!(p.strings[0], "ja-JPStandardA");
    // The first list varies fastest.
    assert_eq!(p.strings[1], "en-USStandardA");
    assert_eq!(p.strings[3], "ja-JPWavenetA");
    assert_eq!(p.strings[6], "ja-JPStandardB");
    assert_eq!(p.idents[23], "EnUKWavenetD");
    let mut all = p.strings.clone();
    all.sort();
    all.dedup();
    assert_eq!(all.len(), 24);
}

#[test]
fn voice_codes_as_the_tts_crate_declares_them() {
    let p = enum_product(&input(true, "VoiceCode", &[&["ja-JP", "en-US"], &["-Standard-", "-Wavenet-"], &["A", "B", "C", "D", "E"]])).unwrap();
    assert!(p.strings.contains(&"ja-JP-Wavenet-A".to_string()));
    let i = p.strings.iter().position(|s| s == "ja-JP-Standard-C").unwrap();
    assert_eq!(p.idents[i], "JaJPStandardC");
}

#[test]
fn private_enum_and_empty_lists() {
    let p = enum_product(&input(false, "E", &[&["x"], &[]])).unwrap();
    assert!(!p.public);
    assert!(p.strings.is_empty());
    // No lists: one variant with the empty name, which is no identifier.
    let e = enum_product(&input(false, "E", &[])).err().unwrap();
    assert_eq!(e, MacroError::InvalidIdent("".into()));
    assert_eq!(e.message(), "Ident is not allowed to be empty; use Option<Ident>");
}

#[test]
fn cleaned_names_must_be_identifiers() {
    let e = enum_product(&input(true, "E", &[&["ok", "1-2"]])).err().unwrap();
    assert_eq!(e, MacroError::InvalidIdent("12".into()));
    assert_eq!(e.message(), "Ident cannot be a number; use Literal instead");
    let e = enum_product(&input(true, "E", &[&["9a"]])).err().unwrap();
    assert_eq!(e.message(), "\"9a\" is not a valid Ident");
    let e = enum_product(&input(true, "E", &[&["-"]])).err().unwrap();
    assert_eq!(e, MacroError::InvalidIdent("".into()));
}

#[test]
fn error_messages() {
    assert_eq!(MacroError::UnexpectedEnd.message(), "Unexpected end of input");
    assert_eq!(MacroError::ExpectPubOrEnum.message(), "Expect `pub` or `enum`");
    assert_eq!(MacroError::ExpectEnum.message(), "Expect `enum`");
    assert_eq!(MacroError::ExpectList.message(), "Expect list");
    assert_eq!(MacroError::ExpectPunctuator.message(), "Expect punctuator");
    assert_eq!(MacroError::ExpectIdent.message(), "Expect ident but got");
    assert_eq!(MacroError::ExpectBlock.message(), "Expect block but got");
    assert_eq!(MacroError::ExpectLiteral.message(), "Expect literal but got");
}

#[test]
fn malformed_inputs_are_refused() {
    assert_eq!(enum_product(&vec![]).err(), Some(MacroError::UnexpectedEnd));
    assert_eq!(enum_product(&vec![TokenTree::Punct('#')]).err(), Some(MacroError::ExpectIdent));
    assert_eq!(enum_product(&vec![TokenTree::Ident("struct".into())]).err(), Some(MacroError::ExpectPubOrEnum));
    assert_eq!(enum_product(&vec![TokenTree::Ident("pub".into()), TokenTree::Ident("struct".into())]).err(), Some(MacroError::ExpectEnum));
    assert_eq!(enum_product(&vec![TokenTree::Ident("enum".into()), TokenTree::Ident("E".into())]).err(), Some(MacroError::UnexpectedEnd));
    assert_eq!(enum_product(&vec![TokenTree::Ident("enum".into()), TokenTree::Ident("E".into()), TokenTree::Punct(';')]).err(), Some(MacroError::ExpectBlock));
    let body = vec![TokenTree::Ident("x".into())];
    assert_eq!(extract_groups(&body).err(), Some(MacroError::ExpectList));
    let body = vec![list(&["a"]), lit("b")];
    assert_eq!(extract_groups(&body).err(), Some(MacroError::ExpectPunctuator));
    let body = vec![TokenTree::Group(vec![TokenTree::Ident("a".into())])];
    assert_eq!(extract_groups(&body).err(), Some(MacroError::ExpectLiteral));
    let body = vec![TokenTree::Group(vec![lit("a"), lit("b")])];
    assert_eq!(extract_groups(&body).err(), Some(MacroError::ExpectPunctuator));
}

#[test]
fn literals_are_unquoted() {
    let body = vec![TokenTree::Group(vec![TokenTree::Literal("\"\"a\"\"".into()), TokenTree::Punct(','), TokenTree::Literal("b".into())])];
    assert_eq!(extract_groups(&body).unwrap(), vec![vec!["a".to_string(), "b".to_string()]]);
}

#[test]
fn listup_directly() {
    let names = vec![vec!["a".to_string(), "b".to_string()], vec!["-1".to_string(), "-2".to_string(), "-3".to_string()]];
    let (idents, strings) = listup(&names).unwrap();
    assert_eq!(strings, vec!["a-1", "b-1", "a-2", "b-2", "a-3", "b-3"]);
    assert_eq!(idents, vec!["A1", "B1", "A2", "B2", "A3", "B3"]);
}
