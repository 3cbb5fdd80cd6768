use std::io::Write;

use fluent_templates::{ArcLoader, LanguageIdentifier};
use ttsbot::i18n::{get_locale, lang_for, t, tt, Lang, Locales};

fn write_catalogue(dir: &std::path::Path, lang: &str, body: &str) {
    let mut f = tempfile::Builder::new()
        .prefix(lang)
        .rand_bytes(0)
        .suffix(".ftl")
        .tempfile_in(dir)
        .unwrap();
    f.write_all(body.as_bytes()).unwrap();
    f.keep().unwrap();
}

fn locales() -> (tempfile::TempDir, Locales) {
    let dir = tempfile::tempdir().unwrap();
    write_catalogue(dir.path(), "ja-JP", "hello = こんにちは\nJoined = 参加しました\n");
    write_catalogue(dir.path(), "en-US", "hello = Hello\n");
    let ja: LanguageIdentifier = "ja-JP".parse().unwrap();
    let en: LanguageIdentifier = "en-US".parse().unwrap();
    let loader = ArcLoader::builder(dir.path(), ja.clone()).build().unwrap();
    (dir, Locales::new(loader, ja, en))
}

#[test]
fn settings_select_languages() {
    assert_eq!(lang_for("j"), Lang::JaJp);
    assert_eq!(lang_for("ja-JP"), Lang::JaJp);
    assert_eq!(lang_for("e"), Lang::EnUs);
    assert_eq!(lang_for("en-US"), Lang::EnUs);
    assert_eq!(lang_for(""), Lang::JaJp);
    assert_eq!(lang_for("fr-FR"), Lang::JaJp);
    assert_eq!(lang_for("EN-US"), Lang::JaJp);
}

#[test]
fn tt_looks_up_in_the_selected_language() {
    let (_dir, locales) = locales();
    assert_eq!(tt(&locales, "ja-JP", "hello"), "こんにちは");
    assert_eq!(tt(&locales, "e", "hello"), "Hello");
    assert_eq!(tt(&locales, "unknown", "hello"), "こんにちは");
    // A message missing in English falls back to Japanese.
    assert_eq!(tt(&locales, "en-US", "Joined"), "参加しました");
}

#[test]
fn guild_scoped_lookups() {
    let (_dir, locales) = locales();
    assert_eq!(get_locale(Some("en-US".to_string())), "en-US");
    assert_eq!(get_locale(None), "");
    assert_eq!(t(&locales, None, "hello"), "");
    // The id goes in the language position and the locale is looked up.
    assert_eq!(t(&locales, Some("hello".to_string()), "e"), tt(&locales, "e", "hello"));
}

#[test]
fn identifier_follows_setting() {
    let (_dir, locales) = locales();
    let ja: LanguageIdentifier = "ja-JP".parse().unwrap();
    let en: LanguageIdentifier = "en-US".parse().unwrap();
    assert_eq!(locales.identifier("e"), &en);
    assert_eq!(locales.identifier("en-US"), &en);
    assert_eq!(locales.identifier("j"), &ja);
    assert_eq!(locales.identifier("de-DE"), &ja);
}
