//! What the forms make of their inputs: a seed phrase from its words, a
//! year and a month from a month field, a number from a number field, and
//! the event details of a game.
use crate::text::concat;
use vstd::prelude::*;
use vstd::string::StringSliceAdditionalSpecFns;

verus! {

/// The number of words of a seed phrase.
pub const SEED_WORDS: usize = 24;

/// The words of a phrase with one blank between each two.
pub open spec fn joined(words: Seq<Seq<char>>) -> Seq<char>
    decreases words.len(),
{
    if words.len() == 0 {
        Seq::empty()
    } else if words.len() == 1 {
        words[0]
    } else {
        joined(words.drop_last()) + " "@ + words.last()
    }
}

/// The texts of fields that are all there.
pub open spec fn all_present(fields: Seq<Option<Seq<char>>>) -> Seq<Seq<char>> {
    fields.map_values(|f: Option<Seq<char>>| f.unwrap())
}

/// The seed phrase of a form's word fields, in the order of the fields:
/// nothing where a field is missing, else the words with one blank between
/// each two.
pub fn seed_phrase(fields: &Vec<Option<String>>) -> (phrase: Option<String>)
    ensures
        phrase.deep_view() == if forall|i: int| 0 <= i < fields.len() ==> fields[i] is Some {
            Some(joined(all_present(fields.deep_view())))
        } else {
            None
        },
{
    let mut phrase = String::new();
    let mut i: usize = 0;
    while i < fields.len()
        invariant
            i <= fields.len(),
            forall|k: int| 0 <= k < i ==> fields[k] is Some,
            phrase@ == joined(all_present(fields.deep_view()).take(i as int)),
        decreases fields.len() - i,
    {
        let ghost all = all_present(fields.deep_view());
        match &fields[i] {
            None => {
                return None;
            },
            Some(word) => {
                assert(all.take(i + 1).drop_last() =~= all.take(i as int));
                assert(all.take(i + 1).last() == word@);
                if i == 0 {
                    phrase = word.clone();
                } else {
                    let spaced = concat(phrase.as_str(), " ");
                    phrase = concat(spaced.as_str(), word.as_str());
                }
            },
        }
        i += 1;
    }
    assert(all_present(fields.deep_view()).take(fields.len() as int) =~= all_present(
        fields.deep_view(),
    ));
    Some(phrase)
}

/// Whether a byte is an ASCII digit.
pub open spec fn is_digit(b: u8) -> bool {
    0x30 <= b <= 0x39
}

/// The number that a run of ASCII digits writes, read from the left.
pub open spec fn value_of(digits: Seq<u8>) -> nat
    decreases digits.len(),
{
    if digits.len() == 0 {
        0
    } else {
        value_of(digits.drop_last()) * 10 + (digits.last() - 0x30) as nat
    }
}

/// What a text reads as, as a `u32`: after one optional `+`, at least one
/// digit and nothing but digits, with a value that fits; anything else is
/// no number.
pub open spec fn number_of(text: Seq<u8>) -> Option<u32> {
    if text.len() > 0 && text[0] == 0x2b {
        unsigned_of(text.skip(1))
    } else {
        unsigned_of(text)
    }
}

/// What a text without a sign reads as, as a `u32`.
pub open spec fn unsigned_of(digits: Seq<u8>) -> Option<u32> {
    if digits.len() > 0 && (forall|i: int| 0 <= i < digits.len() ==> is_digit(#[trigger] digits[i]))
        && value_of(digits) <= u32::MAX {
        Some(value_of(digits) as u32)
    } else {
        None
    }
}

/// The number of a field, and 0 where the field holds none.
pub open spec fn number_or_zero(text: Seq<u8>) -> u32 {
    match number_of(text) {
        Some(n) => n,
        None => 0,
    }
}

/// The value of a run of digits grows with every digit.
proof fn lemma_value_grows(digits: Seq<u8>, n: int)
    requires
        0 <= n <= digits.len(),
        forall|i: int| 0 <= i < digits.len() ==> is_digit(#[trigger] digits[i]),
    ensures
        value_of(digits.take(n)) <= value_of(digits),
    decreases digits.len() - n,
{
    if n == digits.len() {
        assert(digits.take(n) =~= digits);
    } else {
        lemma_value_grows(digits, n + 1);
        assert(digits.take(n + 1).drop_last() =~= digits.take(n));
    }
}

/// Reads bytes as a `u32` the way a number field is read.
pub fn parse_number(text: &[u8]) -> (res: Option<u32>)
    ensures
        res == number_of(text@),
{
    let start: usize = if text.len() > 0 && text[0] == 0x2b {
        1
    } else {
        0
    };
    let ghost digits = text@.skip(start as int);
    assert(text@.skip(0) =~= text@);
    if start >= text.len() {
        return None;
    }
    let mut value: u32 = 0;
    let mut i: usize = start;
    while i < text.len()
        invariant
            start <= i <= text.len(),
            start < text.len(),
            number_of(text@) == unsigned_of(digits),
            digits == text@.skip(start as int),
            forall|k: int| 0 <= k < i - start ==> is_digit(#[trigger] digits[k]),
            value == value_of(digits.take(i - start)),
        decreases text.len() - i,
    {
        let b = text[i];
        assert(digits[i - start] == b);
        if b < 0x30 || b > 0x39 {
            assert(!is_digit(digits[i - start]));
            return None;
        }
        let d: u32 = (b - 0x30) as u32;
        assert(digits.take(i - start + 1).drop_last() =~= digits.take(i - start));
        assert(digits.take(i - start + 1).last() == b);
        if value > (u32::MAX - d) / 10 {
            proof {
                assert(value * 10 + d > u32::MAX);
                assert(value_of(digits.take(i - start + 1)) == value * 10 + d);
                if forall|k: int| 0 <= k < digits.len() ==> is_digit(#[trigger] digits[k]) {
                    lemma_value_grows(digits, i - start + 1);
                }
            }
            return None;
        }
        value = value * 10 + d;
        i += 1;
    }
    assert(digits.take(i - start) =~= digits);
    Some(value)
}

/// The place of the first `-` in a text, if it has one.
pub open spec fn first_dash(text: Seq<u8>) -> Option<int> {
    if exists|i: int| is_first_dash(text, i) {
        Some(choose|i: int| is_first_dash(text, i))
    } else {
        None
    }
}

/// Whether `i` is the place of the first `-` in a text.
pub open spec fn is_first_dash(text: Seq<u8>, i: int) -> bool {
    &&& 0 <= i < text.len()
    &&& text[i] == 0x2d
    &&& forall|k: int| 0 <= k < i ==> text[k] != 0x2d
}

/// The year and the month of a month field such as `2024-03`: the numbers
/// before and after the first `-`, each 0 where it is no number, and both 0
/// where there is no `-`.
pub open spec fn month_of(text: Seq<u8>) -> (u32, u32) {
    match first_dash(text) {
        Some(i) => (number_or_zero(text.take(i)), number_or_zero(text.skip(i + 1))),
        None => (0, 0),
    }
}

/// Reads a number field; a field that holds no number counts as 0.
pub fn parse_count(text: &str) -> (res: u32)
    ensures
        res == number_or_zero(text.spec_bytes()),
{
    match parse_number(text.as_bytes()) {
        Some(n) => n,
        None => 0,
    }
}

/// Reads the year and the month of a month field.
pub fn parse_month(text: &str) -> (res: (u32, u32))
    ensures
        res == month_of(text.spec_bytes()),
{
    let bytes = text.as_bytes();
    let mut i: usize = 0;
    while i < bytes.len()
        invariant
            i <= bytes.len(),
            bytes@ == text.spec_bytes(),
            forall|k: int| 0 <= k < i ==> bytes[k] != 0x2d,
        decreases bytes.len() - i,
    {
        if bytes[i] == 0x2d {
            proof {
                assert(is_first_dash(bytes@, i as int));
                let first = choose|j: int| is_first_dash(bytes@, j);
                assert(first == i);
            }
            let year = number_in(bytes, 0, i);
            let month = number_in(bytes, i + 1, bytes.len());
            assert(bytes@.subrange(0, i as int) =~= bytes@.take(i as int));
            assert(bytes@.subrange(i + 1, bytes.len() as int) =~= bytes@.skip(i + 1));
            return (year, month);
        }
        i += 1;
    }
    (0, 0)
}

/// The number written in a part of a text, and 0 where that part is none.
fn number_in(text: &[u8], from: usize, to: usize) -> (res: u32)
    requires
        from <= to <= text.len(),
    ensures
        res == number_or_zero(text@.subrange(from as int, to as int)),
{
    let mut part: Vec<u8> = Vec::new();
    let mut i: usize = from;
    while i < to
        invariant
            from <= i <= to <= text.len(),
            part@ == text@.subrange(from as int, i as int),
        decreases to - i,
    {
        part.push(text[i]);
        assert(part@ =~= text@.subrange(from as int, i + 1));
        i += 1;
    }
    match parse_number(part.as_slice()) {
        Some(n) => n,
        None => 0,
    }
}

/// The event details that a submitted game form sets: the event with its
/// site and round where an event is named, nothing where the event field
/// is empty, in which case site and round are left as they were.
pub fn event_details(event: &str, site: &str, round: &str) -> (res: Option<(String, String, String)>)
    ensures
        res.deep_view() == if event@.len() == 0 {
            None
        } else {
            Some((event@, site@, round@))
        },
{
    if event.is_empty() {
        None
    } else {
        Some((event.to_owned(), site.to_owned(), round.to_owned()))
    }
}

} // verus!
