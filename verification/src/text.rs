//! Reading a line-oriented text feed as bytes: lines, whitespace-separated
//! fields, marker search and unsigned decimal numbers.

use vstd::prelude::*;
use vstd::slice::slice_subrange;

verus! {

/// The byte that ends a line.
pub const LINE_FEED: u8 = 10;

/// The sign that may stand in front of a number.
pub const PLUS_SIGN: u8 = 43;

/// Whitespace: the space and the five control bytes from tab to carriage
/// return.
pub open spec fn is_space(byte: u8) -> bool {
    byte == 32 || (9 <= byte && byte <= 13)
}

/// A decimal digit.
pub open spec fn is_digit(byte: u8) -> bool {
    48 <= byte && byte <= 57
}

/// Number of bytes before the first line feed, or the whole length where
/// there is none.
pub open spec fn line_len(text: Seq<u8>) -> nat
    decreases text.len(),
{
    if text.len() == 0 || text[0] == LINE_FEED {
        0
    } else {
        1 + line_len(text.drop_first())
    }
}

/// The lines of a text. A line feed ends a line and is not part of it; a
/// last line need not be ended; nothing follows a final line feed.
pub open spec fn lines(text: Seq<u8>) -> Seq<Seq<u8>>
    decreases text.len(),
{
    if text.len() == 0 {
        Seq::empty()
    } else {
        let n = line_len(text) as int;
        if n >= text.len() {
            seq![text]
        } else {
            seq![text.take(n)] + lines(text.skip(n + 1))
        }
    }
}

/// Number of bytes before the first whitespace byte, or the whole length
/// where there is none.
pub open spec fn word_len(text: Seq<u8>) -> nat
    decreases text.len(),
{
    if text.len() == 0 || is_space(text[0]) {
        0
    } else {
        1 + word_len(text.drop_first())
    }
}

/// The fields of a line: its maximal runs of bytes that are not whitespace,
/// in order.
pub open spec fn fields(text: Seq<u8>) -> Seq<Seq<u8>>
    decreases text.len(),
{
    if text.len() == 0 {
        Seq::empty()
    } else if is_space(text[0]) {
        fields(text.drop_first())
    } else {
        let n = word_len(text) as int;
        if n >= text.len() {
            seq![text]
        } else {
            seq![text.take(n)] + fields(text.skip(n))
        }
    }
}

/// `marker` stands in `text` at position `at`.
pub open spec fn occurs_at(text: Seq<u8>, marker: Seq<u8>, at: int) -> bool {
    &&& 0 <= at
    &&& at + marker.len() <= text.len()
    &&& text.subrange(at, at + marker.len()) == marker
}

/// `marker` stands somewhere in `text`.
pub open spec fn contains(text: Seq<u8>, marker: Seq<u8>) -> bool {
    exists|at: int| occurs_at(text, marker, at)
}

/// Value of one digit; zero for any other byte.
pub open spec fn digit_value(byte: u8) -> nat {
    if is_digit(byte) {
        (byte - 48) as nat
    } else {
        0
    }
}

/// Value of a digit string read as a decimal number.
pub open spec fn digits_value(digits: Seq<u8>) -> nat
    decreases digits.len(),
{
    if digits.len() == 0 {
        0
    } else {
        digits_value(digits.drop_last()) * 10 + digit_value(digits.last())
    }
}

/// Every byte is a decimal digit.
pub open spec fn all_digits(digits: Seq<u8>) -> bool {
    forall|i: int| 0 <= i < digits.len() ==> is_digit(#[trigger] digits[i])
}

/// A field without the one plus sign that may lead it.
pub open spec fn unsigned_part(field: Seq<u8>) -> Seq<u8> {
    if field.len() > 0 && field[0] == PLUS_SIGN {
        field.drop_first()
    } else {
        field
    }
}

/// The number a field stands for: after an optional plus sign, one or more
/// decimal digits whose value fits in 64 bits. Any other field is no number.
pub open spec fn number(field: Seq<u8>) -> Option<u64> {
    let digits = unsigned_part(field);
    if digits.len() > 0 && all_digits(digits) && digits_value(digits) <= u64::MAX {
        Some(digits_value(digits) as u64)
    } else {
        None
    }
}

/// The byte sequences that a sequence of slices holds.
pub open spec fn views(parts: Seq<&[u8]>) -> Seq<Seq<u8>> {
    Seq::new(parts.len(), |i: int| parts[i]@)
}

/// Whether a byte is whitespace.
pub fn is_space_byte(byte: u8) -> (space: bool)
    ensures
        space == is_space(byte),
{
    byte == 32 || (9 <= byte && byte <= 13)
}

/// End of the line that starts at `from`.
fn line_end(text: &[u8], from: usize) -> (end: usize)
    requires
        from <= text@.len(),
    ensures
        from <= end <= text@.len(),
        end - from == line_len(text@.skip(from as int)),
{
    let mut end = from;
    while end < text.len() && text[end] != LINE_FEED
        invariant
            from <= end <= text@.len(),
            line_len(text@.skip(from as int)) == (end - from) + line_len(text@.skip(end as int)),
        decreases text@.len() - end,
    {
        assert(text@.skip(end as int).drop_first() =~= text@.skip(end + 1));
        end = end + 1;
    }
    end
}

/// End of the field that starts at `from`.
fn word_end(text: &[u8], from: usize) -> (end: usize)
    requires
        from <= text@.len(),
    ensures
        from <= end <= text@.len(),
        end - from == word_len(text@.skip(from as int)),
{
    let mut end = from;
    while end < text.len() && !is_space_byte(text[end])
        invariant
            from <= end <= text@.len(),
            word_len(text@.skip(from as int)) == (end - from) + word_len(text@.skip(end as int)),
        decreases text@.len() - end,
    {
        assert(text@.skip(end as int).drop_first() =~= text@.skip(end + 1));
        end = end + 1;
    }
    end
}

/// Splits a text into its lines.
pub fn split_lines<'a>(text: &'a [u8]) -> (parts: Vec<&'a [u8]>)
    ensures
        views(parts@) == lines(text@),
{
    let mut parts: Vec<&[u8]> = Vec::new();
    let mut pos: usize = 0;
    assert(text@.skip(0) =~= text@);
    while pos < text.len()
        invariant
            pos <= text@.len(),
            lines(text@) == views(parts@) + lines(text@.skip(pos as int)),
        decreases text@.len() - pos,
    {
        let end = line_end(text, pos);
        let line = slice_subrange(text, pos, end);
        let ghost rest = text@.skip(pos as int);
        parts.push(line);
        let next = if end < text.len() {
            end + 1
        } else {
            end
        };
        proof {
            assert(rest.take(end - pos) =~= line@);
            if end < text@.len() {
                assert(rest.skip(end - pos + 1) =~= text@.skip(next as int));
            }
        }
        pos = next;
    }
    parts
}

/// Splits a line into its fields.
pub fn split_fields<'a>(line: &'a [u8]) -> (parts: Vec<&'a [u8]>)
    ensures
        views(parts@) == fields(line@),
{
    let mut parts: Vec<&[u8]> = Vec::new();
    let mut pos: usize = 0;
    assert(line@.skip(0) =~= line@);
    while pos < line.len()
        invariant
            pos <= line@.len(),
            fields(line@) == views(parts@) + fields(line@.skip(pos as int)),
        decreases line@.len() - pos,
    {
        let ghost rest = line@.skip(pos as int);
        if is_space_byte(line[pos]) {
            assert(rest.drop_first() =~= line@.skip(pos + 1));
            pos = pos + 1;
        } else {
            let end = word_end(line, pos);
            let word = slice_subrange(line, pos, end);
            parts.push(word);
            proof {
                assert(rest.take(end - pos) =~= word@);
                if end < line@.len() {
                    assert(rest.skip(end - pos) =~= line@.skip(end as int));
                }
            }
            pos = end;
        }
    }
    parts
}

/// Whether `marker` stands in `text` at position `at`.
fn matches_at(text: &[u8], marker: &[u8], at: usize) -> (found: bool)
    requires
        at + marker@.len() <= text@.len(),
    ensures
        found == occurs_at(text@, marker@, at as int),
{
    let len = text.len();
    let mut i: usize = 0;
    while i < marker.len()
        invariant
            i <= marker@.len(),
            len == text@.len(),
            at + marker@.len() <= len,
            forall|j: int| 0 <= j < i ==> text@[at + j] == marker@[j],
        decreases marker@.len() - i,
    {
        if text[at + i] != marker[i] {
            assert(text@.subrange(at as int, at + marker@.len())[i as int] != marker@[i as int]);
            return false;
        }
        i = i + 1;
    }
    assert(text@.subrange(at as int, at + marker@.len()) =~= marker@);
    true
}

/// Whether `marker` stands somewhere in `text`.
pub fn contains_marker(text: &[u8], marker: &[u8]) -> (found: bool)
    ensures
        found == contains(text@, marker@),
{
    if marker.len() > text.len() {
        return false;
    }
    let last = text.len() - marker.len();
    let mut at: usize = 0;
    loop
        invariant
            last + marker@.len() == text@.len(),
            at <= last,
            forall|earlier: int| 0 <= earlier < at ==> !occurs_at(text@, marker@, earlier),
        decreases last - at,
    {
        if matches_at(text, marker, at) {
            return true;
        }
        if at == last {
            return false;
        }
        at = at + 1;
    }
}

/// Cutting digits off the end of a digit string does not raise its value.
proof fn lemma_prefix_value(digits: Seq<u8>, kept: int)
    requires
        0 <= kept <= digits.len(),
    ensures
        digits_value(digits.take(kept)) <= digits_value(digits),
    decreases digits.len() - kept,
{
    if kept == digits.len() {
        assert(digits.take(kept) =~= digits);
    } else {
        lemma_prefix_value(digits.drop_last(), kept);
        assert(digits.drop_last().take(kept) =~= digits.take(kept));
    }
}

/// Reads a field as a number.
pub fn parse_number(field: &[u8]) -> (parsed: Option<u64>)
    ensures
        parsed == number(field@),
{
    let len = field.len();
    let first: usize = if len > 0 && field[0] == PLUS_SIGN {
        1
    } else {
        0
    };
    if first == len {
        return None;
    }
    let ghost digits = unsigned_part(field@);
    let mut value: u64 = 0;
    let mut i: usize = first;
    while i < len
        invariant
            first <= i <= len,
            len == field@.len(),
            digits == field@.skip(first as int),
            digits == unsigned_part(field@),
            all_digits(digits.take(i - first)),
            value == digits_value(digits.take(i - first)),
        decreases len - i,
    {
        let byte = field[i];
        assert(digits[i - first] == byte);
        if !(48 <= byte && byte <= 57) {
            return None;
        }
        proof {
            assert(digits.take(i + 1 - first).drop_last() =~= digits.take(i - first));
            lemma_prefix_value(digits, i + 1 - first);
        }
        let scaled = match value.checked_mul(10) {
            Some(scaled) => scaled,
            None => {
                return None;
            },
        };
        let next = match scaled.checked_add((byte - 48) as u64) {
            Some(next) => next,
            None => {
                return None;
            },
        };
        value = next;
        i = i + 1;
    }
    assert(digits.take(len - first) =~= digits);
    Some(value)
}

} // verus!
