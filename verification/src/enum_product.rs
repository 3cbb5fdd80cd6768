//! The product-enum generator: from lists of name parts, one variant per
//! combination (one part from each list), named by the concatenated parts.

use vstd::prelude::*;

use crate::pattern::{non_alphanumeric_class, regex_replace_all, regex_replaced_all};
use crate::text::{capitalize, capitalized, same_text, texts};
use vstd::arithmetic::div_mod::{lemma_fundamental_div_mod_converse, lemma_mod_bound, lemma_mod_breakdown, lemma_small_mod};

verus! {

/// A token of the generator's input.
pub enum TokenTree {
    /// A delimited group and the tokens inside it.
    Group(Vec<TokenTree>),
    Ident(String),
    Punct(char),
    /// A literal, by its source text (quotes included).
    Literal(String),
}

/// Why the generator refused its input.
#[derive(Clone, Debug, PartialEq, Eq)]
pub enum MacroError {
    UnexpectedEnd,
    ExpectIdent,
    ExpectPubOrEnum,
    ExpectEnum,
    ExpectBlock,
    ExpectList,
    ExpectLiteral,
    ExpectPunctuator,
    /// A variant's cleaned name, which is not an identifier.
    InvalidIdent(String),
}

/// The message the generator reports for an error. The messages for a
/// wrong token continue, after `but got`, with the compiler's rendering of
/// that token, which the token model does not hold; they are given up to
/// there.
pub open spec fn macro_message(e: MacroError) -> Seq<char> {
    match e {
        MacroError::UnexpectedEnd => "Unexpected end of input"@,
        MacroError::ExpectIdent => "Expect ident but got"@,
        MacroError::ExpectPubOrEnum => "Expect `pub` or `enum`"@,
        MacroError::ExpectEnum => "Expect `enum`"@,
        MacroError::ExpectBlock => "Expect block but got"@,
        MacroError::ExpectList => "Expect list"@,
        MacroError::ExpectLiteral => "Expect literal but got"@,
        MacroError::ExpectPunctuator => "Expect punctuator"@,
        MacroError::InvalidIdent(t) => if t@.len() == 0 {
            "Ident is not allowed to be empty; use Option<Ident>"@
        } else if all_digits(t@) {
            "Ident cannot be a number; use Literal instead"@
        } else {
            "\""@ + t@ + "\" is not a valid Ident"@
        },
    }
}

/// Whether every character of `s` is an ASCII digit.
pub open spec fn all_digits(s: Seq<char>) -> bool {
    forall|i: int| 0 <= i < s.len() ==> '0' <= #[trigger] s[i] <= '9'
}

fn digits_only(s: &Vec<char>) -> (b: bool)
    ensures
        b == all_digits(s@),
{
    let mut i: usize = 0;
    while i < s.len()
        invariant
            i <= s@.len(),
            forall|k: int| 0 <= k < i ==> '0' <= #[trigger] s@[k] <= '9',
        decreases s@.len() - i,
    {
        if !('0' <= s[i] && s[i] <= '9') {
            return false;
        }
        i = i + 1;
    }
    true
}

impl MacroError {
    /// The message reported for this error.
    pub fn message(&self) -> (s: String)
        ensures
            s@ == macro_message(*self),
    {
        match self {
            MacroError::UnexpectedEnd => String::from_str("Unexpected end of input"),
            MacroError::ExpectIdent => String::from_str("Expect ident but got"),
            MacroError::ExpectPubOrEnum => String::from_str("Expect `pub` or `enum`"),
            MacroError::ExpectEnum => String::from_str("Expect `enum`"),
            MacroError::ExpectBlock => String::from_str("Expect block but got"),
            MacroError::ExpectList => String::from_str("Expect list"),
            MacroError::ExpectLiteral => String::from_str("Expect literal but got"),
            MacroError::ExpectPunctuator => String::from_str("Expect punctuator"),
            MacroError::InvalidIdent(t) => {
                let v = crate::text::chars_of(t.as_str());
                if v.len() == 0 {
                    String::from_str("Ident is not allowed to be empty; use Option<Ident>")
                } else if digits_only(&v) {
                    String::from_str("Ident cannot be a number; use Literal instead")
                } else {
                    let mut m = String::from_str("\"");
                    m.append(t.as_str());
                    m.append("\" is not a valid Ident");
                    m
                }
            },
        }
    }
}

/// Whether `s` is an identifier made of ASCII letters, digits and
/// underscores, not starting with a digit. A cleaned variant name holds only
/// ASCII letters and digits, and for such text this is Rust's rule.
pub open spec fn is_ident_text(s: Seq<char>) -> bool {
    &&& s.len() > 0
    &&& ('A' <= s[0] <= 'Z' || 'a' <= s[0] <= 'z' || s[0] == '_')
    &&& forall|i: int| 0 <= i < s.len() ==> ('A' <= #[trigger] s[i] <= 'Z' || 'a' <= s[i] <= 'z' || '0' <= s[i] <= '9' || s[i] == '_')
}

fn ident_text(s: &str) -> (b: bool)
    ensures
        b == is_ident_text(s@),
{
    let v = crate::text::chars_of(s);
    if v.len() == 0 {
        return false;
    }
    let c0 = v[0];
    if !(('A' <= c0 && c0 <= 'Z') || ('a' <= c0 && c0 <= 'z') || c0 == '_') {
        return false;
    }
    let mut i: usize = 0;
    while i < v.len()
        invariant
            i <= v@.len(),
            v@ == s@,
            forall|k: int| 0 <= k < i ==> ('A' <= #[trigger] v@[k] <= 'Z' || 'a' <= v@[k] <= 'z' || '0' <= v@[k] <= '9' || v@[k] == '_'),
        decreases v@.len() - i,
    {
        let c = v[i];
        if !(('A' <= c && c <= 'Z') || ('a' <= c && c <= 'z') || ('0' <= c && c <= '9') || c == '_') {
            return false;
        }
        i = i + 1;
    }
    true
}

/// The product enum to generate: visibility, name, and for each variant its
/// identifier and its text.
pub struct EnumProduct {
    pub public: bool,
    pub name: String,
    pub idents: Vec<String>,
    pub strings: Vec<String>,
}

/// `s` without leading and trailing double quotes (`trim_matches('"')`).
pub open spec fn unquoted(s: Seq<char>) -> Seq<char>
    decreases s.len(),
{
    if s.len() > 0 && s[0] == '"' {
        unquoted(s.drop_first())
    } else if s.len() > 0 && s.last() == '"' {
        unquoted(s.drop_last())
    } else {
        s
    }
}

fn unquote(s: &str) -> (out: String)
    ensures
        out@ == unquoted(s@),
{
    let v = crate::text::chars_of(s);
    let mut a: usize = 0;
    let mut b: usize = v.len();
    assert(v@.subrange(0, v@.len() as int) =~= v@);
    while a < b && (v[a] == '"' || v[b - 1] == '"')
        invariant
            a <= b <= v@.len(),
            unquoted(s@) == unquoted(v@.subrange(a as int, b as int)),
        decreases b - a,
    {
        if v[a] == '"' {
            assert(v@.subrange(a as int, b as int).drop_first() =~= v@.subrange(a + 1, b as int));
            a = a + 1;
        } else {
            assert(v@.subrange(a as int, b as int).drop_last() =~= v@.subrange(a as int, b - 1));
            b = b - 1;
        }
    }
    crate::text::string_of(&v, a, b)
}

/// The outcome of reading the lists: `body` alternates lists and
/// punctuation, each list alternates literals and punctuation; the lists'
/// literals, unquoted.
pub open spec fn list_of(items: Seq<TokenTree>) -> Result<Seq<Seq<char>>, MacroError>
    decreases items.len(),
{
    if items.len() == 0 {
        Ok(Seq::<Seq<char>>::empty())
    } else {
        match list_of(items.drop_last()) {
            Err(e) => Err(e),
            Ok(prev) => {
                let j = items.len() - 1;
                if j % 2 == 0 {
                    match items.last() {
                        TokenTree::Literal(l) => Ok(prev.push(unquoted(l@))),
                        _ => Err(MacroError::ExpectLiteral),
                    }
                } else {
                    match items.last() {
                        TokenTree::Punct(_) => Ok(prev),
                        _ => Err(MacroError::ExpectPunctuator),
                    }
                }
            }
        }
    }
}

/// The lists read from the body of the generator's input.
pub open spec fn groups_of(body: Seq<TokenTree>) -> Result<Seq<Seq<Seq<char>>>, MacroError>
    decreases body.len(),
{
    if body.len() == 0 {
        Ok(Seq::<Seq<Seq<char>>>::empty())
    } else {
        match groups_of(body.drop_last()) {
            Err(e) => Err(e),
            Ok(prev) => {
                let i = body.len() - 1;
                if i % 2 == 0 {
                    match body.last() {
                        TokenTree::Group(inner) => match list_of(inner@) {
                            Ok(l) => Ok(prev.push(l)),
                            Err(e) => Err(e),
                        },
                        _ => Err(MacroError::ExpectList),
                    }
                } else {
                    match body.last() {
                        TokenTree::Punct(_) => Ok(prev),
                        _ => Err(MacroError::ExpectPunctuator),
                    }
                }
            }
        }
    }
}

proof fn lemma_list_error_persists(items: Seq<TokenTree>, k: int, e: MacroError)
    requires
        0 <= k <= items.len(),
        list_of(items.take(k)) == Err::<Seq<Seq<char>>, MacroError>(e),
    ensures
        list_of(items) == Err::<Seq<Seq<char>>, MacroError>(e),
    decreases items.len() - k,
{
    if k < items.len() {
        assert(items.take(k + 1).drop_last() =~= items.take(k));
        lemma_list_error_persists(items, k + 1, e);
    } else {
        assert(items.take(k) =~= items);
    }
}

proof fn lemma_groups_error_persists(body: Seq<TokenTree>, k: int, e: MacroError)
    requires
        0 <= k <= body.len(),
        groups_of(body.take(k)) == Err::<Seq<Seq<Seq<char>>>, MacroError>(e),
    ensures
        groups_of(body) == Err::<Seq<Seq<Seq<char>>>, MacroError>(e),
    decreases body.len() - k,
{
    if k < body.len() {
        assert(body.take(k + 1).drop_last() =~= body.take(k));
        lemma_groups_error_persists(body, k + 1, e);
    } else {
        assert(body.take(k) =~= body);
    }
}

/// The nested lists' views.
pub open spec fn lists_view(v: Seq<Vec<String>>) -> Seq<Seq<Seq<char>>> {
    v.map_values(|l: Vec<String>| texts(l@))
}

fn read_list(items: &Vec<TokenTree>) -> (r: Result<Vec<String>, MacroError>)
    ensures
        r matches Ok(l) ==> list_of(items@) == Ok::<Seq<Seq<char>>, MacroError>(texts(l@)),
        r matches Err(e) ==> list_of(items@) == Err::<Seq<Seq<char>>, MacroError>(e),
{
    let mut out: Vec<String> = Vec::new();
    let mut j: usize = 0;
    assert(items@.take(0) =~= Seq::<TokenTree>::empty());
    assert(texts(out@) =~= Seq::<Seq<char>>::empty());
    while j < items.len()
        invariant
            j <= items@.len(),
            list_of(items@.take(j as int)) == Ok::<Seq<Seq<char>>, MacroError>(texts(out@)),
        decreases items@.len() - j,
    {
        assert(items@.take(j + 1).drop_last() =~= items@.take(j as int));
        if j % 2 == 0 {
            match &items[j] {
                TokenTree::Literal(l) => {
                    let u = unquote(l.as_str());
                    let ghost before = out@;
                    out.push(u);
                    assert(texts(out@) =~= texts(before).push(u@));
                },
                _ => {
                    proof { lemma_list_error_persists(items@, j + 1, MacroError::ExpectLiteral); }
                    return Err(MacroError::ExpectLiteral);
                },
            }
        } else {
            match &items[j] {
                TokenTree::Punct(_) => {},
                _ => {
                    proof { lemma_list_error_persists(items@, j + 1, MacroError::ExpectPunctuator); }
                    return Err(MacroError::ExpectPunctuator);
                },
            }
        }
        j = j + 1;
    }
    assert(items@.take(j as int) =~= items@);
    Ok(out)
}

/// Reads the lists of the generator's body.
pub fn extract_groups(body: &Vec<TokenTree>) -> (r: Result<Vec<Vec<String>>, MacroError>)
    ensures
        r matches Ok(l) ==> groups_of(body@) == Ok::<Seq<Seq<Seq<char>>>, MacroError>(lists_view(l@)),
        r matches Err(e) ==> groups_of(body@) == Err::<Seq<Seq<Seq<char>>>, MacroError>(e),
{
    let mut out: Vec<Vec<String>> = Vec::new();
    let mut i: usize = 0;
    assert(body@.take(0) =~= Seq::<TokenTree>::empty());
    assert(lists_view(out@) =~= Seq::<Seq<Seq<char>>>::empty());
    while i < body.len()
        invariant
            i <= body@.len(),
            groups_of(body@.take(i as int)) == Ok::<Seq<Seq<Seq<char>>>, MacroError>(lists_view(out@)),
        decreases body@.len() - i,
    {
        assert(body@.take(i + 1).drop_last() =~= body@.take(i as int));
        if i % 2 == 0 {
            match &body[i] {
                TokenTree::Group(inner) => {
                    match read_list(inner) {
                        Ok(l) => {
                            let ghost before = out@;
                            out.push(l);
                            assert(lists_view(out@) =~= lists_view(before).push(texts(l@)));
                        },
                        Err(e) => {
                            proof { lemma_groups_error_persists(body@, i + 1, e); }
                            return Err(e);
                        },
                    }
                },
                _ => {
                    proof { lemma_groups_error_persists(body@, i + 1, MacroError::ExpectList); }
                    return Err(MacroError::ExpectList);
                },
            }
        } else {
            match &body[i] {
                TokenTree::Punct(_) => {},
                _ => {
                    proof { lemma_groups_error_persists(body@, i + 1, MacroError::ExpectPunctuator); }
                    return Err(MacroError::ExpectPunctuator);
                },
            }
        }
        i = i + 1;
    }
    assert(body@.take(i as int) =~= body@);
    Ok(out)
}


/// The number of combinations of the first `j` lists.
pub open spec fn prefix_product(lists: Seq<Seq<Seq<char>>>, j: int) -> nat
    decreases j,
{
    if j <= 0 {
        1
    } else {
        prefix_product(lists, j - 1) * lists[j - 1].len()
    }
}

/// The number of variants: the product of the lists' lengths.
pub open spec fn combination_count(lists: Seq<Seq<Seq<char>>>) -> nat {
    prefix_product(lists, lists.len() as int)
}

/// Which part of list `j` the `i`-th variant takes: digit `j` of `i` written
/// in the mixed radix of the lists' lengths, the first list varying fastest.
pub open spec fn digit(lists: Seq<Seq<Seq<char>>>, i: nat, j: int) -> int {
    (i % prefix_product(lists, j + 1)) as int / prefix_product(lists, j) as int
}

/// The parts of the `i`-th variant from the first `m` lists, concatenated.
pub open spec fn combination_upto(lists: Seq<Seq<Seq<char>>>, i: nat, m: int) -> Seq<char>
    decreases m,
{
    if m <= 0 {
        Seq::<char>::empty()
    } else {
        combination_upto(lists, i, m - 1) + lists[m - 1][digit(lists, i, m - 1)]
    }
}

/// The text of the `i`-th variant.
pub open spec fn combination(lists: Seq<Seq<Seq<char>>>, i: nat) -> Seq<char> {
    combination_upto(lists, i, lists.len() as int)
}

/// The texts of all variants, in order.
pub open spec fn product_strings(lists: Seq<Seq<Seq<char>>>) -> Seq<Seq<char>> {
    Seq::new(combination_count(lists), |i: int| combination(lists, i as nat))
}

/// The pattern of characters removed from variant identifiers.
pub open spec fn ident_pattern() -> Seq<char> {
    non_alphanumeric_class()
}

/// The identifier of a variant with text `s`: `s` with its first character
/// in upper case, then with every character other than an ASCII letter or
/// digit removed by the pattern.
pub open spec fn variant_ident(s: Seq<char>) -> Seq<char> {
    regex_replaced_all(ident_pattern(), capitalized(s), ""@)
}

/// The identifiers of all variants, in order.
pub open spec fn variant_idents(lists: Seq<Seq<Seq<char>>>) -> Seq<Seq<char>> {
    product_strings(lists).map_values(|s: Seq<char>| variant_ident(s))
}

/// Whether every variant's identifier is an identifier.
pub open spec fn idents_valid(lists: Seq<Seq<Seq<char>>>) -> bool {
    forall|i: int| 0 <= i < variant_idents(lists).len() ==> is_ident_text(#[trigger] variant_idents(lists)[i])
}

/// Whether `t` is the first variant identifier that is not an identifier.
pub open spec fn first_invalid(lists: Seq<Seq<Seq<char>>>, t: Seq<char>) -> bool {
    exists|i: int| {
        &&& 0 <= i < variant_idents(lists).len()
        &&& #[trigger] variant_idents(lists)[i] == t
        &&& !is_ident_text(t)
        &&& forall|j: int| 0 <= j < i ==> is_ident_text(#[trigger] variant_idents(lists)[j])
    }
}

/// Whether every partial product fits in a `usize`.
pub open spec fn products_fit(lists: Seq<Seq<Seq<char>>>) -> bool {
    forall|j: int| 0 <= j <= lists.len() ==> #[trigger] prefix_product(lists, j) <= usize::MAX
}

proof fn lemma_zero_product_stays(lists: Seq<Seq<Seq<char>>>, j: int, k: int)
    requires
        0 <= j <= k,
        prefix_product(lists, j) == 0,
    ensures
        prefix_product(lists, k) == 0,
    decreases k - j,
{
    if j < k {
        lemma_zero_product_stays(lists, j, k - 1);
        let a = prefix_product(lists, k - 1);
        let b = lists[k - 1].len();
        assert(a * b == 0) by (nonlinear_arith) requires a == 0;
    }
}

/// With some variant, every list is nonempty and every partial product is
/// positive.
proof fn lemma_positive_products(lists: Seq<Seq<Seq<char>>>, j: int)
    requires
        0 <= j <= lists.len(),
        combination_count(lists) > 0,
    ensures
        prefix_product(lists, j) > 0,
        j < lists.len() ==> lists[j].len() > 0,
{
    if prefix_product(lists, j) == 0 {
        lemma_zero_product_stays(lists, j, lists.len() as int);
    }
    if j < lists.len() && lists[j].len() == 0 {
        let a = prefix_product(lists, j);
        assert(a * 0 == 0) by (nonlinear_arith);
        assert(prefix_product(lists, j + 1) == 0);
        lemma_zero_product_stays(lists, j + 1, lists.len() as int);
    }
}

/// Digit `j` of `i` is `(i / P_j) % L_j`, below `L_j`, and
/// `i % P_{j+1} == P_j * digit + i % P_j`.
proof fn lemma_digit(lists: Seq<Seq<Seq<char>>>, i: nat, j: int)
    requires
        0 <= j < lists.len(),
        combination_count(lists) > 0,
    ensures
        digit(lists, i, j) == (i as int / prefix_product(lists, j) as int) % (lists[j].len() as int),
        0 <= digit(lists, i, j) < lists[j].len(),
        (i % prefix_product(lists, j + 1)) as int == prefix_product(lists, j) * digit(lists, i, j) + (i % prefix_product(lists, j)) as int,
{
    lemma_positive_products(lists, j);
    let p = prefix_product(lists, j) as int;
    let l = lists[j].len() as int;
    assert(prefix_product(lists, j + 1) == p * l);
    lemma_mod_breakdown(i as int, p, l);
    lemma_mod_bound(i as int, p);
    lemma_mod_bound(i as int / p, l);
    lemma_fundamental_div_mod_converse(
        (i as int) % (p * l), p, (i as int / p) % l, (i as int) % p);
}

/// Two variants agreeing on the parts from the first `k` lists agree
/// modulo `P_k`.
proof fn lemma_same_digits_same_mod(lists: Seq<Seq<Seq<char>>>, i: nat, i2: nat, k: int)
    requires
        0 <= k <= lists.len(),
        combination_count(lists) > 0,
        forall|j: int| 0 <= j < k ==> #[trigger] digit(lists, i, j) == digit(lists, i2, j),
    ensures
        i % prefix_product(lists, k) == i2 % prefix_product(lists, k),
    decreases k,
{
    if k == 0 {
        assert(i % 1 == 0);
        assert(i2 % 1 == 0);
    } else {
        lemma_same_digits_same_mod(lists, i, i2, k - 1);
        lemma_digit(lists, i, k - 1);
        lemma_digit(lists, i2, k - 1);
        assert(digit(lists, i, k - 1) == digit(lists, i2, k - 1));
    }
}

/// Distinct variants take distinct combinations: for any two indices below
/// the number of variants, some list contributes different parts.
pub proof fn lemma_variants_distinct(lists: Seq<Seq<Seq<char>>>, i: nat, i2: nat)
    requires
        i < combination_count(lists),
        i2 < combination_count(lists),
        i != i2,
    ensures
        exists|j: int| 0 <= j < lists.len() && #[trigger] digit(lists, i, j) != digit(lists, i2, j),
{
    if forall|j: int| 0 <= j < lists.len() ==> #[trigger] digit(lists, i, j) == digit(lists, i2, j) {
        lemma_same_digits_same_mod(lists, i, i2, lists.len() as int);
        lemma_small_mod(i, combination_count(lists));
        lemma_small_mod(i2, combination_count(lists));
    }
}

/// Every variant takes one existing part from each list.
pub proof fn lemma_digits_in_range(lists: Seq<Seq<Seq<char>>>, i: nat, j: int)
    requires
        i < combination_count(lists),
        0 <= j < lists.len(),
    ensures
        0 <= digit(lists, i, j) < lists[j].len(),
{
    lemma_digit(lists, i, j);
}

/// Lists the variants: for each index below the product of the lists'
/// lengths, the concatenated parts as its text and the cleaned, capitalised
/// text as its identifier. Refused, at the first variant in order whose
/// identifier is not one, when some identifier is not.
pub fn listup(names: &Vec<Vec<String>>) -> (r: Result<(Vec<String>, Vec<String>), MacroError>)
    requires
        products_fit(lists_view(names@)),
    ensures
        idents_valid(lists_view(names@)) ==> (r matches Ok((idents, strings)) && {
            &&& texts(strings@) == product_strings(lists_view(names@))
            &&& texts(idents@) == variant_idents(lists_view(names@))
        }),
        !idents_valid(lists_view(names@)) ==> (r matches Err(MacroError::InvalidIdent(t))
            && first_invalid(lists_view(names@), t@)),
{
    let ghost lists = lists_view(names@);
    let m = names.len();
    let mut n: usize = 1;
    let mut j: usize = 0;
    while j < m
        invariant
            m == names@.len(),
            lists == lists_view(names@),
            lists.len() == m,
            products_fit(lists),
            j <= m,
            n == prefix_product(lists, j as int),
        decreases m - j,
    {
        assert(names@[j as int]@.len() == lists[j as int].len());
        assert(prefix_product(lists, j + 1) <= usize::MAX);
        n = n * names[j].len();
        j = j + 1;
    }
    let mut idents: Vec<String> = Vec::new();
    let mut strings: Vec<String> = Vec::new();
    let mut i: usize = 0;
    while i < n
        invariant
            m == names@.len(),
            lists == lists_view(names@),
            lists.len() == m,
            products_fit(lists),
            n == combination_count(lists),
            i <= n,
            forall|k: int| 0 <= k < i ==> is_ident_text(#[trigger] variant_idents(lists)[k]),
            strings@.len() == i,
            idents@.len() == i,
            texts(strings@) == product_strings(lists).take(i as int),
            texts(idents@) == product_strings(lists).map_values(|s: Seq<char>| variant_ident(s)).take(i as int),
        decreases n - i,
    {
        let mut s = String::new();
        let mut k: usize = 1;
        let mut l: usize = 1;
        let mut j: usize = 0;
        while j < m
            invariant
                m == names@.len(),
                lists == lists_view(names@),
                lists.len() == m,
                products_fit(lists),
                i < n,
                n == combination_count(lists),
                j <= m,
                k == prefix_product(lists, j as int),
                l == prefix_product(lists, j as int),
                s@ == combination_upto(lists, i as nat, j as int),
            decreases m - j,
        {
            proof {
                lemma_positive_products(lists, j as int);
                lemma_digit(lists, i as nat, j as int);
            }
            assert(names@[j as int]@.len() == lists[j as int].len());
            assert(prefix_product(lists, j + 1) <= usize::MAX);
            let len_j = names[j].len();
            assert(k * len_j > 0) by (nonlinear_arith) requires k > 0, len_j > 0;
            k = k * len_j;
            let d = (i % k) / l;
            assert(d == digit(lists, i as nat, j as int));
            let part = &names[j][d];
            assert(part@ == lists[j as int][d as int]);
            s.append(part.as_str());
            l = l * names[j].len();
            j = j + 1;
        }
        proof {
            assert(s@ == product_strings(lists)[i as int]);
            reveal_strlit("[^A-Za-z0-9]");
        }
        let cap = capitalize(s.as_str());
        let id = match regex_replace_all("[^A-Za-z0-9]", cap.as_str(), "") {
            Some(id) => id,
            None => {
                return vstd::pervasive::unreached();
            },
        };
        proof {
            assert(variant_idents(lists)[i as int] == variant_ident(s@));
        }
        if !ident_text(id.as_str()) {
            proof {
                assert(first_invalid(lists, id@) && !idents_valid(lists)) by {
                    assert(variant_idents(lists)[i as int] == id@);
                }
            }
            return Err(MacroError::InvalidIdent(id));
        }
        let ghost before_s = strings@;
        let ghost before_i = idents@;
        proof {
            assert(id@ == variant_ident(s@));
        }
        strings.push(s);
        idents.push(id);
        proof {
            assert(strings@ == before_s.push(s));
            assert(idents@ == before_i.push(id));
            assert(texts(strings@) =~= product_strings(lists).take(i + 1));
            assert(texts(idents@) =~= product_strings(lists).map_values(|s: Seq<char>| variant_ident(s)).take(i + 1));
            assert forall|k: int| 0 <= k < i + 1 implies is_ident_text(#[trigger] variant_idents(lists)[k]) by {
                if k == i {
                    assert(variant_idents(lists)[k] == id@);
                }
            }
        }
        i = i + 1;
    }
    assert(product_strings(lists).take(i as int) =~= product_strings(lists));
    assert(product_strings(lists).map_values(|s: Seq<char>| variant_ident(s)).take(i as int)
        =~= product_strings(lists).map_values(|s: Seq<char>| variant_ident(s)));
    Ok((idents, strings))
}


/// The token at `i` as an identifier's text.
pub open spec fn ident_at(tokens: Seq<TokenTree>, i: int) -> Result<Seq<char>, MacroError> {
    if i >= tokens.len() {
        Err(MacroError::UnexpectedEnd)
    } else {
        match tokens[i] {
            TokenTree::Ident(id) => Ok(id@),
            _ => Err(MacroError::ExpectIdent),
        }
    }
}

/// The header of the generator's input, `[pub] enum Name { .. }`: whether the
/// enum is public, its name, and the tokens of its body.
pub open spec fn header_of(tokens: Seq<TokenTree>) -> Result<(bool, Seq<char>, Seq<TokenTree>), MacroError> {
    match ident_at(tokens, 0) {
        Err(e) => Err(e),
        Ok(first) => {
            if first != "pub"@ && first != "enum"@ {
                Err(MacroError::ExpectPubOrEnum)
            } else {
                let public = first == "pub"@;
                let second_ok: Result<(), MacroError> = if public {
                    match ident_at(tokens, 1) {
                        Err(e) => Err(e),
                        Ok(second) => if second == "enum"@ { Ok(()) } else { Err(MacroError::ExpectEnum) },
                    }
                } else {
                    Ok(())
                };
                let at: int = if public { 2 } else { 1 };
                match second_ok {
                    Err(e) => Err(e),
                    Ok(_) => match ident_at(tokens, at) {
                        Err(e) => Err(e),
                        Ok(name) => if at + 1 >= tokens.len() {
                            Err(MacroError::UnexpectedEnd)
                        } else {
                            match tokens[at + 1] {
                                TokenTree::Group(body) => Ok((public, name, body@)),
                                _ => Err(MacroError::ExpectBlock),
                            }
                        },
                    },
                }
            }
        },
    }
}

/// Whether every partial product of the input's lists fits in a `usize`.
pub open spec fn input_fits(tokens: Seq<TokenTree>) -> bool {
    header_of(tokens) matches Ok((_, _, body)) ==> (groups_of(body) matches Ok(lists) ==> products_fit(lists))
}

fn read_ident(tokens: &Vec<TokenTree>, i: usize) -> (r: Result<String, MacroError>)
    ensures
        r matches Ok(s) ==> ident_at(tokens@, i as int) == Ok::<Seq<char>, MacroError>(s@),
        r matches Err(e) ==> ident_at(tokens@, i as int) == Err::<Seq<char>, MacroError>(e),
{
    if i >= tokens.len() {
        return Err(MacroError::UnexpectedEnd);
    }
    match &tokens[i] {
        TokenTree::Ident(id) => Ok(id.clone()),
        _ => Err(MacroError::ExpectIdent),
    }
}

/// The product enum that `[pub] enum Name { [..], [..], .. }` asks for: one
/// variant per combination of one part from each list, first list varying
/// fastest, with the concatenated parts as its text.
pub fn enum_product(tokens: &Vec<TokenTree>) -> (r: Result<EnumProduct, MacroError>)
    requires
        input_fits(tokens@),
    ensures
        header_of(tokens@) matches Err(e) ==> r == Err::<EnumProduct, MacroError>(e),
        header_of(tokens@) matches Ok((public, name, body)) ==> {
            &&& groups_of(body) matches Err(e) ==> r == Err::<EnumProduct, MacroError>(e)
            &&& groups_of(body) matches Ok(lists) ==> {
                &&& !idents_valid(lists) ==> (r matches Err(MacroError::InvalidIdent(t)) && first_invalid(lists, t@))
                &&& idents_valid(lists) ==> (r matches Ok(p) && {
                    &&& p.public == public
                    &&& p.name@ == name
                    &&& texts(p.strings@) == product_strings(lists)
                    &&& texts(p.idents@) == variant_idents(lists)
                })
            }
        },
{
    proof {
        reveal_strlit("pub");
        reveal_strlit("enum");
    }
    let first = match read_ident(tokens, 0) {
        Ok(f) => f,
        Err(e) => return Err(e),
    };
    let public = if same_text(first.as_str(), "pub") {
        true
    } else if same_text(first.as_str(), "enum") {
        false
    } else {
        return Err(MacroError::ExpectPubOrEnum);
    };
    if public {
        let second = match read_ident(tokens, 1) {
            Ok(s) => s,
            Err(e) => return Err(e),
        };
        if !same_text(second.as_str(), "enum") {
            return Err(MacroError::ExpectEnum);
        }
    }
    let at: usize = if public { 2 } else { 1 };
    let name = match read_ident(tokens, at) {
        Ok(n) => n,
        Err(e) => return Err(e),
    };
    if at + 1 >= tokens.len() {
        return Err(MacroError::UnexpectedEnd);
    }
    let body = match &tokens[at + 1] {
        TokenTree::Group(body) => body,
        _ => return Err(MacroError::ExpectBlock),
    };
    let lists = match extract_groups(body) {
        Ok(l) => l,
        Err(e) => return Err(e),
    };
    match listup(&lists) {
        Ok((idents, strings)) => Ok(EnumProduct { public, name, idents, strings }),
        Err(e) => Err(e),
    }
}

} // verus!
