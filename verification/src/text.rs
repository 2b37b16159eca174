//! The few operations on text that the rules of this crate need and that
//! the standard library provides without a contract.
use vstd::prelude::*;
use vstd::string::{StringExecFns, StringSliceAdditionalSpecFns};
use vstd::utf8::is_char_boundary;

verus! {

/// Whether a character is white space: one of the characters with
/// Unicode's property White_Space.
pub open spec fn is_white_space(c: char) -> bool {
    ||| '\u{9}' <= c <= '\u{d}'
    ||| c == ' '
    ||| c == '\u{85}'
    ||| c == '\u{a0}'
    ||| c == '\u{1680}'
    ||| '\u{2000}' <= c <= '\u{200a}'
    ||| c == '\u{2028}'
    ||| c == '\u{2029}'
    ||| c == '\u{202f}'
    ||| c == '\u{205f}'
    ||| c == '\u{3000}'
}

/// Whether a character is white space.
pub fn is_space(c: char) -> (res: bool)
    ensures
        res == is_white_space(c),
{
    ('\u{9}' <= c && c <= '\u{d}') || c == ' ' || c == '\u{85}' || c == '\u{a0}' || c == '\u{1680}'
        || ('\u{2000}' <= c && c <= '\u{200a}') || c == '\u{2028}' || c == '\u{2029}' || c
        == '\u{202f}' || c == '\u{205f}' || c == '\u{3000}'
}

/// `s` without the white space it begins with.
pub open spec fn without_leading_space(s: Seq<char>) -> Seq<char>
    decreases s.len(),
{
    if s.len() > 0 && is_white_space(s[0]) {
        without_leading_space(s.skip(1))
    } else {
        s
    }
}

/// `s` without the white space it ends with.
pub open spec fn without_trailing_space(s: Seq<char>) -> Seq<char>
    decreases s.len(),
{
    if s.len() > 0 && is_white_space(s.last()) {
        without_trailing_space(s.drop_last())
    } else {
        s
    }
}

/// `s` without the white space at its two ends.
pub open spec fn trimmed(s: Seq<char>) -> Seq<char> {
    without_trailing_space(without_leading_space(s))
}

/// A text that neither begins nor ends with white space is left as it is,
/// and so is the empty text.
pub proof fn lemma_trimmed_keeps_bare_text(s: Seq<char>)
    requires
        s.len() > 0 ==> !is_white_space(s[0]) && !is_white_space(s.last()),
    ensures
        trimmed(s) == s,
{
}

/// A text of white space only is trimmed to nothing.
pub proof fn lemma_trimmed_blank_is_empty(s: Seq<char>)
    requires
        forall|i: int| 0 <= i < s.len() ==> is_white_space(#[trigger] s[i]),
    ensures
        trimmed(s).len() == 0,
    decreases s.len(),
{
    if s.len() > 0 {
        lemma_trimmed_blank_is_empty(s.skip(1));
    }
}

/// Calls `str::trim`, which removes the white space, as Unicode defines
/// it, that a text begins and ends with.
#[verifier::external_body]
pub(crate) fn trim(s: &str) -> (res: &str)
    ensures
        res@ == trimmed(s@),
{
    s.trim()
}

/// Calls `str::starts_with` with a text as the pattern: whether `s` begins
/// with `prefix`.
#[verifier::external_body]
pub(crate) fn starts_with(s: &str, prefix: &str) -> (res: bool)
    ensures
        res == prefix@.is_prefix_of(s@),
{
    s.starts_with(prefix)
}

/// Calls `str::contains` with a character as the pattern: whether `c`
/// occurs in `s`.
#[verifier::external_body]
pub(crate) fn contains_char(s: &str, c: char) -> (res: bool)
    ensures
        res == s@.contains(c),
{
    s.contains(c)
}

/// `s` with every `from` turned into `to`.
pub open spec fn with_char_replaced(s: Seq<char>, from: char, to: char) -> Seq<char> {
    s.map_values(|c: char| if c == from { to } else { c })
}

/// Calls `str::replace` with a character as the pattern and a text of one
/// character in its place: every `from` in `s` becomes that character, and
/// nothing else changes.
#[verifier::external_body]
pub(crate) fn replace_char(s: &str, from: char, to: &str) -> (res: String)
    requires
        to@.len() == 1,
    ensures
        res@ == with_char_replaced(s@, from, to@[0]),
{
    s.replace(from, to)
}

/// Two texts, one after the other.
pub fn concat(a: &str, b: &str) -> (res: String)
    ensures
        res@ == a@ + b@,
{
    let mut res = a.to_owned();
    res.append(b);
    res
}

/// Whether two texts are the same.
pub fn same_text(a: &str, b: &str) -> (res: bool)
    ensures
        res == (a@ == b@),
{
    a.to_owned() == b.to_owned()
}

/// The number of bytes of an id that a notification shows.
pub const SHORT_ID_BYTES: usize = 8;

/// The beginning of an id, as a notification shows it: its first eight
/// bytes. An id that is shorter, or that has a character across the eighth
/// byte, has no such beginning.
pub fn short_id(id: &str) -> (res: &str)
    requires
        is_char_boundary(id.spec_bytes(), SHORT_ID_BYTES as int),
    ensures
        res.spec_bytes() == id.spec_bytes().subrange(0, SHORT_ID_BYTES as int),
{
    id.split_at(SHORT_ID_BYTES).0
}

} // verus!
