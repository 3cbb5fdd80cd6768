//! Localisation: which catalogue a language setting selects, and the lookups
//! made with it.

use fluent_templates::{ArcLoader, LanguageIdentifier};
use vstd::prelude::*;

use crate::text::same_text;

verus! {

#[verifier::external_type_specification]
#[verifier::external_body]
pub struct ExArcLoader(ArcLoader);

#[verifier::external_type_specification]
#[verifier::external_body]
pub struct ExLanguageIdentifier(LanguageIdentifier);

/// The languages the bot speaks.
#[derive(Clone, Copy, Debug, PartialEq, Eq, Structural)]
pub enum Lang {
    JaJp,
    EnUs,
}

/// The language a setting selects: `j` and `ja-JP` select Japanese, `e` and
/// `en-US` English, and anything else falls back to Japanese.
pub open spec fn lang_of(setting: Seq<char>) -> Lang {
    if setting == "j"@ || setting == "ja-JP"@ {
        Lang::JaJp
    } else if setting == "e"@ || setting == "en-US"@ {
        Lang::EnUs
    } else {
        Lang::JaJp
    }
}

/// The language that the setting `lang` selects.
pub fn lang_for(lang: &str) -> (l: Lang)
    ensures
        l == lang_of(lang@),
{
    if same_text(lang, "j") || same_text(lang, "ja-JP") {
        Lang::JaJp
    } else if same_text(lang, "e") || same_text(lang, "en-US") {
        Lang::EnUs
    } else {
        Lang::JaJp
    }
}

/// The message catalogues, with the identifiers of the two languages.
pub struct Locales {
    loader: ArcLoader,
    ja_jp: LanguageIdentifier,
    en_us: LanguageIdentifier,
}

impl Locales {
    /// The identifier used for Japanese.
    pub closed spec fn ja_jp_id(&self) -> LanguageIdentifier {
        self.ja_jp
    }

    /// The identifier used for English.
    pub closed spec fn en_us_id(&self) -> LanguageIdentifier {
        self.en_us
    }

    /// The identifier a lookup in `lang` is made with.
    pub open spec fn id_of(&self, lang: Lang) -> LanguageIdentifier {
        match lang {
            Lang::JaJp => self.ja_jp_id(),
            Lang::EnUs => self.en_us_id(),
        }
    }

    /// Bundles a loaded catalogue with the identifiers of `ja-JP` and `en-US`.
    pub fn new(loader: ArcLoader, ja_jp: LanguageIdentifier, en_us: LanguageIdentifier) -> (l: Self)
        ensures
            l.ja_jp_id() == ja_jp,
            l.en_us_id() == en_us,
    {
        Locales { loader, ja_jp, en_us }
    }

    /// The identifier that the setting `lang` selects.
    pub fn identifier(&self, lang: &str) -> (id: &LanguageIdentifier)
        ensures
            *id == self.id_of(lang_of(lang@)),
    {
        match lang_for(lang) {
            Lang::JaJp => &self.ja_jp,
            Lang::EnUs => &self.en_us,
        }
    }
}

/// Whether `text` is what the bot's message catalogues give for the message
/// `id` in the language `lang`. This is a relation, not a function: the text
/// also depends on the catalogue files that were read.
pub uninterp spec fn lookup_outcome(lang: Lang, id: Seq<char>, text: Seq<char>) -> bool;

/// `fluent_templates::Loader::lookup` on the catalogues of `locales`, with
/// the identifier `ident`: the message `id` formatted from the catalogue the
/// language negotiation picks, else from the fallback language, else a text
/// naming the unknown key. It never fails. The contract claims only that the
/// text is the lookup's outcome for `id` in each language whose identifier
/// `ident` is; what that text is, the files decide, and nothing is said of it.
#[verifier::external_body]
fn loader_lookup(locales: &Locales, ident: &LanguageIdentifier, id: &str) -> (text: String)
    ensures
        forall|l: Lang| #[trigger] locales.id_of(l) == *ident ==> lookup_outcome(l, id@, text@),
{
    fluent_templates::Loader::lookup(&locales.loader, ident, id)
}

/// The message `lookup_id` in the language that the setting `lang` selects.
pub fn tt(locales: &Locales, lang: &str, lookup_id: &str) -> (s: String)
    ensures
        lookup_outcome(lang_of(lang@), lookup_id@, s@),
{
    let ident = locales.identifier(lang);
    let s = loader_lookup(locales, ident, lookup_id);
    assert(locales.id_of(lang_of(lang@)) == *ident);
    s
}

/// The locale stored for a guild, or the empty string when the guild or its
/// record could not be read.
pub fn get_locale(stored: Option<String>) -> (s: String)
    ensures
        stored matches Some(l) ==> s@ == l@,
        stored is None ==> s@ == Seq::<char>::empty(),
{
    match stored {
        Some(l) => l,
        None => String::new(),
    }
}

/// The guild-scoped lookup: with a stored locale, `tt` is called with the
/// message id in the language position and the locale in the message-id
/// position; without one the result is empty.
pub fn t(locales: &Locales, stored: Option<String>, id: &str) -> (s: String)
    ensures
        stored is None ==> s@ == Seq::<char>::empty(),
        stored matches Some(locale) ==> lookup_outcome(lang_of(id@), locale@, s@),
{
    match stored {
        Some(locale) => tt(locales, id, locale.as_str()),
        None => String::new(),
    }
}

} // verus!
