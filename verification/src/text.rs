//! Text helpers shared by the other modules.

use vstd::prelude::*;
use vstd::std_specs::iter::IteratorSpec;
use vstd::utf8::*;

verus! {

/// Whether two string slices hold the same characters.
pub fn str_eq(a: &str, b: &str) -> (same: bool)
    ensures
        same == (a@ == b@),
{
    proof {
        encode_utf8_decode_utf8(a@);
        encode_utf8_decode_utf8(b@);
    }
    slice_eq(a.as_bytes(), b.as_bytes())
}

/// Whether two byte slices hold the same bytes.
pub fn slice_eq(x: &[u8], y: &[u8]) -> (same: bool)
    ensures
        same == (x@ == y@),
{
    if x.len() != y.len() {
        return false;
    }
    let mut i: usize = 0;
    while i < x.len()
        invariant
            x.len() == y.len(),
            i <= x.len(),
            forall|j: int| 0 <= j < i ==> x@[j] == y@[j],
        decreases x.len() - i,
    {
        if x[i] != y[i] {
            return false;
        }
        i += 1;
    }
    assert(x@ =~= y@);
    true
}

/// `String::push`: appends one character to a string.
#[verifier::external_body]
pub(crate) fn push_char(text: &mut String, c: char)
    ensures
        final(text)@ == old(text)@.push(c),
{
    text.push(c)
}

/// Whether a text ends in a line feed.
pub open spec fn ends_in_newline(text: Seq<char>) -> bool {
    text.len() > 0 && text.last() == '\n'
}

/// A scalar value is written in UTF-8 with a line feed as its last byte
/// exactly if it is the line feed.
proof fn lemma_last_byte_of_scalar(scalar: u32)
    ensures
        encode_scalar(scalar).len() >= 1,
        encode_scalar(scalar).last() == 10u8 <==> scalar == 10u32,
{
    assert(scalar <= 0x7F ==> (((scalar & 0x7F) as u8) == 10u8 <==> scalar == 10u32))
        by (bit_vector);
    assert((0x80u8 | ((scalar & 0x3F) as u8)) != 10u8) by (bit_vector);
}

/// A text ends in a line feed exactly if its bytes in UTF-8 do.
pub proof fn lemma_newline_is_last_byte(text: Seq<char>)
    ensures
        text.len() > 0 <==> encode_utf8(text).len() > 0,
        ends_in_newline(text) <==> encode_utf8(text).len() > 0 && encode_utf8(text).last() == 10u8,
    decreases text.len(),
{
    if text.len() > 0 {
        let rest = text.drop_first();
        let head = encode_scalar(text[0] as u32);
        let tail = encode_utf8(rest);
        lemma_last_byte_of_scalar(text[0] as u32);
        lemma_newline_is_last_byte(rest);
        assert(encode_utf8(text) == head + tail);
        if rest.len() > 0 {
            assert(text.last() == rest.last());
            assert((head + tail).last() == tail.last());
        } else {
            assert(head + tail =~= head);
            char_u32_cast('\n', 10u32);
            if text[0] as u32 == 10u32 {
                char_u32_cast(text[0], 10u32);
            }
        }
    }
}

/// Whether `text` ends in a line feed.
pub fn ends_with_newline(text: &str) -> (ends: bool)
    ensures
        ends == ends_in_newline(text@),
{
    proof {
        lemma_newline_is_last_byte(text@);
    }
    let bytes = text.as_bytes();
    bytes.len() > 0 && bytes[bytes.len() - 1] == 10
}

/// `core::str::from_utf8`: the text that a run of bytes encodes in UTF-8,
/// and `None` exactly where the bytes are no valid UTF-8.
#[verifier::external_body]
pub(crate) fn str_from_utf8(bytes: &[u8]) -> (text: Option<&str>)
    ensures
        text is Some <==> valid_utf8(bytes@),
        text matches Some(t) ==> t@ == decode_utf8(bytes@),
{
    core::str::from_utf8(bytes).ok()
}

/// The characters of a text, in order.
pub fn chars_of(text: &str) -> (chars: Vec<char>)
    ensures
        chars@ == text@,
{
    let mut chars: Vec<char> = Vec::new();
    let mut rest = text.chars();
    loop
        invariant
            chars@ + rest.remaining() == text@,
            rest.obeys_prophetic_iter_laws(),
            rest.decrease() is Some,
        decreases rest.decrease()->0,
    {
        let ghost before = rest;
        match rest.next() {
            Some(c) => {
                let ghost taken = chars@;
                chars.push(c);
                assert(chars@ + rest.remaining() =~= taken + before.remaining());
            },
            None => {
                assert(chars@ =~= text@);
                return chars;
            },
        }
    }
}

/// Whether `needle` stands in `haystack` at the position `at`.
pub open spec fn occurs_at<T>(haystack: Seq<T>, needle: Seq<T>, at: int) -> bool {
    0 <= at && at + needle.len() <= haystack.len() && haystack.subrange(at, at + needle.len())
        == needle
}

/// Whether `needle` stands somewhere in `haystack`, item next to item.
pub open spec fn occurs_in<T>(haystack: Seq<T>, needle: Seq<T>) -> bool {
    exists|at: int| occurs_at(haystack, needle, at)
}

/// Whether the characters `needle` stand somewhere in `haystack`.
pub fn contains_chars(haystack: &[char], needle: &[char]) -> (found: bool)
    ensures
        found == occurs_in(haystack@, needle@),
{
    if needle.len() > haystack.len() {
        return false;
    }
    let last = haystack.len() - needle.len();
    let mut at: usize = 0;
    while at <= last
        invariant
            needle.len() <= haystack.len(),
            last == haystack.len() - needle.len(),
            at <= last + 1,
            forall|k: int| 0 <= k < at ==> !occurs_at(haystack@, needle@, k),
        decreases last + 1 - at,
    {
        let mut j: usize = 0;
        while j < needle.len() && haystack[at + j] == needle[j]
            invariant
                at <= last,
                last == haystack.len() - needle.len(),
                j <= needle.len(),
                forall|k: int| 0 <= k < j ==> haystack@[at + k] == needle@[k],
            decreases needle.len() - j,
        {
            j += 1;
        }
        if j == needle.len() {
            assert(haystack@.subrange(at as int, at + needle.len()) =~= needle@);
            assert(occurs_at(haystack@, needle@, at as int));
            return true;
        }
        assert(!occurs_at(haystack@, needle@, at as int)) by {
            if occurs_at(haystack@, needle@, at as int) {
                assert(haystack@.subrange(at as int, at + needle.len())[j as int] == needle@[j as int]);
            }
        }
        at += 1;
    }
    false
}

/// The character of a decimal digit.
pub open spec fn digit_char(digit: int) -> char {
    if digit == 0 {
        '0'
    } else if digit == 1 {
        '1'
    } else if digit == 2 {
        '2'
    } else if digit == 3 {
        '3'
    } else if digit == 4 {
        '4'
    } else if digit == 5 {
        '5'
    } else if digit == 6 {
        '6'
    } else if digit == 7 {
        '7'
    } else if digit == 8 {
        '8'
    } else {
        '9'
    }
}

/// The decimal digits of a natural number, without leading zeros.
pub open spec fn digits_of(n: nat) -> Seq<char>
    decreases n,
{
    if n < 10 {
        seq![digit_char(n as int)]
    } else {
        digits_of(n / 10).push(digit_char((n % 10) as int))
    }
}

/// An integer written in decimal, with a minus sign where it is negative.
pub open spec fn decimal(n: int) -> Seq<char> {
    if n < 0 {
        seq!['-'] + digits_of((-n) as nat)
    } else {
        digits_of(n as nat)
    }
}

/// The character of the decimal digit `digit`.
fn char_of_digit(digit: u8) -> (c: char)
    requires
        digit < 10,
    ensures
        c == digit_char(digit as int),
{
    match digit {
        0 => '0',
        1 => '1',
        2 => '2',
        3 => '3',
        4 => '4',
        5 => '5',
        6 => '6',
        7 => '7',
        8 => '8',
        _ => '9',
    }
}

/// Appends the decimal digits of `n` to `text`.
fn push_digits(text: &mut String, n: u64)
    ensures
        final(text)@ == old(text)@ + digits_of(n as nat),
    decreases n,
{
    if n >= 10 {
        push_digits(text, n / 10);
    }
    push_char(text, char_of_digit((n % 10) as u8));
    assert(text@ =~= old(text)@ + digits_of(n as nat));
}

/// Appends `n`, written in decimal, to `text`.
pub fn push_decimal(text: &mut String, n: i32)
    ensures
        final(text)@ == old(text)@ + decimal(n as int),
{
    if n < 0 {
        push_char(text, '-');
        let magnitude: u64 = (-(n as i64)) as u64;
        push_digits(text, magnitude);
        assert(text@ =~= old(text)@ + decimal(n as int));
    } else {
        push_digits(text, n as u64);
    }
}

/// `n` written in decimal.
pub fn decimal_string(n: i32) -> (text: String)
    ensures
        text@ == decimal(n as int),
{
    let mut text = String::new();
    push_decimal(&mut text, n);
    assert(text@ =~= decimal(n as int));
    text
}

/// The texts of `items` in a row, with `separator` between every two.
pub open spec fn joined(items: Seq<Seq<char>>, separator: Seq<char>) -> Seq<char>
    decreases items.len(),
{
    if items.len() == 0 {
        seq![]
    } else if items.len() == 1 {
        items[0]
    } else {
        joined(items.drop_last(), separator) + separator + items.last()
    }
}

/// The views of a sequence of strings.
pub open spec fn views(items: Seq<String>) -> Seq<Seq<char>> {
    Seq::new(items.len(), |i: int| items[i]@)
}

/// The strings of `items` in a row, with `separator` between every two.
pub fn join(items: &[String], separator: &str) -> (text: String)
    ensures
        text@ == joined(views(items@), separator@),
{
    let mut text = String::new();
    let mut i: usize = 0;
    assert(views(items@).take(0) =~= Seq::empty());
    while i < items.len()
        invariant
            i <= items.len(),
            text@ == joined(views(items@).take(i as int), separator@),
        decreases items.len() - i,
    {
        proof {
            let next = views(items@).take(i + 1);
            assert(next.drop_last() =~= views(items@).take(i as int));
            assert(next.last() == items@[i as int]@);
        }
        if i > 0 {
            text.append(separator);
        }
        text.append(items[i].as_str());
        i += 1;
    }
    assert(views(items@).take(i as int) =~= views(items@));
    text
}

/// The text of an optional string, and the empty text where there is none.
pub open spec fn text_or_empty(value: Option<String>) -> Seq<char> {
    match value {
        Some(text) => text@,
        None => Seq::empty(),
    }
}

/// The string of an option, and the empty string where there is none.
pub fn string_or_empty(value: Option<String>) -> (text: String)
    ensures
        text@ == text_or_empty(value),
{
    match value {
        Some(text) => text,
        None => String::new(),
    }
}

/// How the standard library writes a list of strings for debugging: in
/// square brackets, each string in double quotes with its special characters
/// escaped, with a comma and a space between every two.
pub uninterp spec fn debug_list_text(items: Seq<Seq<char>>) -> Seq<char>;

/// `format!` with `{:?}` on a vector of strings. What it returns is a
/// function of the strings alone, to which [`debug_list_text`] gives a name.
#[verifier::external_body]
pub(crate) fn debug_list(items: &Vec<String>) -> (text: String)
    ensures
        text@ == debug_list_text(views(items@)),
{
    format!("{:?}", items)
}

} // verus!
