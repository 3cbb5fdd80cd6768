//! Regular-expression matching and replacement, through the `regex` crate.

use vstd::prelude::*;

verus! {

/// Whether `regex::Regex::new` accepts `pattern`.
pub uninterp spec fn regex_valid(pattern: Seq<char>) -> bool;

/// What `Regex::is_match` answers for the compiled `pattern` on `text`.
pub uninterp spec fn regex_matches(pattern: Seq<char>, text: Seq<char>) -> bool;

/// What `Regex::replace_all` gives for the compiled `pattern` on `text` with
/// `replacement`.
pub uninterp spec fn regex_replaced_all(pattern: Seq<char>, text: Seq<char>, replacement: Seq<char>) -> Seq<char>;

/// `Regex::new(pattern)` then `is_match(text)`: nothing when the pattern does
/// not compile, else whether the pattern matches somewhere in `text`.
#[verifier::external_body]
pub(crate) fn regex_is_match(pattern: &str, text: &str) -> (r: Option<bool>)
    ensures
        r is Some <==> regex_valid(pattern@),
        r matches Some(b) ==> b == regex_matches(pattern@, text@),
{
    match regex::Regex::new(pattern) {
        Ok(re) => Some(re.is_match(text)),
        Err(_) => None,
    }
}

/// The negated class of ASCII letters and digits, `[^A-Za-z0-9]`.
pub open spec fn non_alphanumeric_class() -> Seq<char> {
    "[^A-Za-z0-9]"@
}

/// `Regex::new(pattern)` then `replace_all(text, replacement)`: nothing when
/// the pattern does not compile, else the text with every match replaced.
/// The crate's syntax documentation accepts the negated class of character
/// ranges `[^A-Za-z0-9]`, so that pattern always compiles.
#[verifier::external_body]
pub(crate) fn regex_replace_all(pattern: &str, text: &str, replacement: &str) -> (r: Option<String>)
    ensures
        r is Some <==> regex_valid(pattern@),
        pattern@ == non_alphanumeric_class() ==> r is Some,
        r matches Some(s) ==> s@ == regex_replaced_all(pattern@, text@, replacement@),
{
    match regex::Regex::new(pattern) {
        Ok(re) => Some(re.replace_all(text, replacement).into_owned()),
        Err(_) => None,
    }
}

} // verus!
