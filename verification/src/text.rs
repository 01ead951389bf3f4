//! Text primitives that the library relies on: the lexicographic order of
//! strings, case folding, substring search, trimming and decimal numerals.
//!
//! The order, the substring relation and the numerals are defined here as
//! mathematical functions over sequences of characters. The run-time
//! operations of the standard library are reached through small trusted
//! functions, each documented below; case folding and trimming follow the
//! Unicode tables of the standard library and are named, not defined.

use vstd::prelude::*;

verus! {

/// `a` comes before `b`, or equals it, in the lexicographic order by code point.
pub open spec fn lex_le(a: Seq<char>, b: Seq<char>) -> bool
    decreases a.len(),
{
    if a.len() == 0 {
        true
    } else if b.len() == 0 {
        false
    } else if (a[0] as int) < (b[0] as int) {
        true
    } else if (b[0] as int) < (a[0] as int) {
        false
    } else {
        lex_le(a.drop_first(), b.drop_first())
    }
}

/// `needle` occurs in `hay` starting at position `at`.
pub open spec fn occurs_at(needle: Seq<char>, hay: Seq<char>, at: int) -> bool {
    &&& 0 <= at
    &&& at + needle.len() <= hay.len()
    &&& hay.subrange(at, at + needle.len()) == needle
}

/// `needle` occurs somewhere in `hay` as a contiguous run of characters.
pub open spec fn is_substring(needle: Seq<char>, hay: Seq<char>) -> bool {
    exists|at: int| occurs_at(needle, hay, at)
}

/// The decimal digit of a value below ten.
pub open spec fn decimal_digit(d: nat) -> char {
    (48 + d) as char
}

/// The decimal numeral of a number, without sign or leading zeros.
pub open spec fn decimal(n: nat) -> Seq<char>
    decreases n,
{
    if n < 10 {
        seq![decimal_digit(n)]
    } else {
        decimal(n / 10).push(decimal_digit(n % 10))
    }
}

/// A text without the white space at its ends, as Unicode defines white
/// space.
///
/// The definition of white space is the standard library's; it is not
/// written out here.
pub uninterp spec fn trimmed(s: Seq<char>) -> Seq<char>;

/// The lower-case form of a text under the Unicode case mapping.
///
/// The mapping itself is the standard library's; it is not written out here.
pub uninterp spec fn lowercase(s: Seq<char>) -> Seq<char>;

/// Any two strings are comparable.
pub proof fn lemma_lex_le_total(a: Seq<char>, b: Seq<char>)
    ensures
        lex_le(a, b) || lex_le(b, a),
    decreases a.len(),
{
    if a.len() > 0 && b.len() > 0 && a[0] as int == b[0] as int {
        lemma_lex_le_total(a.drop_first(), b.drop_first());
    }
}

/// The order is transitive.
pub proof fn lemma_lex_le_transitive(a: Seq<char>, b: Seq<char>, c: Seq<char>)
    requires
        lex_le(a, b),
        lex_le(b, c),
    ensures
        lex_le(a, c),
    decreases a.len(),
{
    if a.len() > 0 && b.len() > 0 && c.len() > 0 {
        if a[0] as int == b[0] as int && b[0] as int == c[0] as int {
            lemma_lex_le_transitive(a.drop_first(), b.drop_first(), c.drop_first());
        }
    }
}

/// Compares two strings with the standard library's `<=` on `str`.
///
/// Trusted: the standard library orders strings lexicographically by their
/// bytes, which for UTF-8 is the order by code point stated in [`lex_le`].
#[verifier::external_body]
pub(crate) fn str_le(a: &str, b: &str) -> (r: bool)
    ensures
        r == lex_le(a@, b@),
{
    a <= b
}

/// Lower-cases a string with `str::to_lowercase`.
///
/// Trusted: the result is the text named [`lowercase`], a function of the
/// argument alone.
#[verifier::external_body]
pub(crate) fn to_lowercase(s: &str) -> (r: String)
    ensures
        r@ == lowercase(s@),
{
    s.to_lowercase()
}

/// Searches `hay` for `needle` with `str::contains`.
///
/// Trusted: the standard library reports whether the pattern matches a
/// sub-slice of the string, which is [`is_substring`].
#[verifier::external_body]
pub(crate) fn str_contains(hay: &str, needle: &str) -> (r: bool)
    ensures
        r == is_substring(needle@, hay@),
{
    hay.contains(needle)
}

/// Strips the white space from both ends of a string with `str::trim`.
///
/// Trusted: the result is the text named [`trimmed`], a function of the
/// argument alone.
#[verifier::external_body]
pub(crate) fn trim<'a>(s: &'a str) -> (r: &'a str)
    ensures
        r@ == trimmed(s@),
{
    s.trim()
}

/// Writes a number in decimal with the standard library's formatting of `u32`.
///
/// Trusted: the result is the numeral stated in [`decimal`].
#[verifier::external_body]
pub(crate) fn u32_to_string(n: u32) -> (r: String)
    ensures
        r@ == decimal(n as nat),
{
    n.to_string()
}

} // verus!
