//! Reading a baud rate from its decimal text.

use vstd::prelude::*;
use vstd::string::*;
use vstd::utf8::*;

verus! {

/// `c` is one of the ASCII digits `0` to `9`.
pub open spec fn is_digit(c: char) -> bool {
    '0' <= c <= '9'
}

/// The number that a run of decimal digits denotes: the empty run denotes 0,
/// and each further digit multiplies what stands before it by ten.
pub open spec fn digits_value(digits: Seq<char>) -> nat
    decreases digits.len(),
{
    if digits.len() == 0 {
        0
    } else {
        digits_value(digits.drop_last()) * 10 + (digits.last() as int - 48) as nat
    }
}

/// Every character of `digits` is a decimal digit.
pub open spec fn all_digits(digits: Seq<char>) -> bool {
    forall|i: int| 0 <= i < digits.len() ==> is_digit(#[trigger] digits[i])
}

/// The text with one leading `+` taken off, if it has one.
pub open spec fn unsigned_part(text: Seq<char>) -> Seq<char> {
    if text.len() > 0 && text[0] == '+' {
        text.drop_first()
    } else {
        text
    }
}

/// The baud rate that `text` denotes: an optional `+`, then at least one
/// decimal digit and nothing else, with a value that fits in 32 bits.
/// Any other text denotes no rate.
pub open spec fn parsed_baud(text: Seq<char>) -> Option<u32> {
    let digits = unsigned_part(text);
    if digits.len() > 0 && all_digits(digits) && digits_value(digits) <= u32::MAX {
        Some(digits_value(digits) as u32)
    } else {
        None
    }
}

/// What is reported for a text that denotes no baud rate.
pub open spec fn invalid_baud_message(text: Seq<char>) -> Seq<char> {
    "Invalid baud rate '"@ + text + "' specified"@
}

/// A run of digits is worth at least as much as any of its prefixes.
proof fn lemma_prefix_value(digits: Seq<char>, n: int)
    requires
        0 <= n <= digits.len(),
    ensures
        digits_value(digits.take(n)) <= digits_value(digits),
    decreases digits.len() - n,
{
    if n == digits.len() {
        assert(digits.take(n) =~= digits);
    } else {
        lemma_prefix_value(digits, n + 1);
        assert(digits.take(n + 1).drop_last() =~= digits.take(n));
    }
}

/// In a text of ASCII characters only, each byte of the encoding is the
/// code of the character at its place.
proof fn lemma_ascii_bytes(text: Seq<char>)
    requires
        is_ascii_chars(text),
    ensures
        encode_utf8(text).len() == text.len(),
        forall|k: int|
            0 <= k < text.len() ==> (#[trigger] encode_utf8(text)[k]) as int == text[k] as int,
{
    is_ascii_chars_encode_utf8(text);
    is_ascii_chars_nat_bound(text);
}

/// A text with a character outside ASCII denotes no baud rate.
proof fn lemma_not_ascii_not_baud(text: Seq<char>)
    requires
        !is_ascii_chars(text),
    ensures
        parsed_baud(text) is None,
{
    let bad = choose|i: int| 0 <= i < text.len() && !('\0' <= #[trigger] text[i] <= '\u{7f}');
    if text[0] == '+' {
        assert(!is_digit(unsigned_part(text)[bad - 1]));
    }
}

/// The decimal value of `text`, or `None` where it denotes no baud rate.
fn parse_decimal(text: &str) -> (r: Option<u32>)
    ensures
        r == parsed_baud(text@),
{
    if !text.is_ascii() {
        proof {
            lemma_not_ascii_not_baud(text@);
        }
        return None;
    }
    let bytes = text.as_bytes();
    proof {
        lemma_ascii_bytes(text@);
    }
    let n: usize = bytes.len();
    let start: usize = if n > 0 && bytes[0] == 43 { 1 } else { 0 };
    let ghost digits = unsigned_part(text@);
    assert(digits =~= text@.subrange(start as int, n as int));
    if start == n {
        return None;
    }
    let mut value: u32 = 0;
    let mut i: usize = start;
    while i < n
        invariant
            start <= i <= n,
            n == bytes@.len(),
            n == text@.len(),
            digits == unsigned_part(text@),
            digits == text@.subrange(start as int, n as int),
            forall|k: int| 0 <= k < n ==> (#[trigger] bytes@[k]) as int == text@[k] as int,
            forall|k: int| 0 <= k < i - start ==> is_digit(#[trigger] digits[k]),
            value == digits_value(digits.take(i - start)),
        decreases n - i,
    {
        let b: u8 = bytes[i];
        if b < 48 || b > 57 {
            assert(!is_digit(digits[i - start]));
            return None;
        }
        let d: u8 = b - 48;
        assert(digits.take(i - start + 1).drop_last() =~= digits.take(i - start));
        let next: u64 = value as u64 * 10 + d as u64;
        if next > u32::MAX as u64 {
            proof {
                lemma_prefix_value(digits, i - start + 1);
            }
            return None;
        }
        value = next as u32;
        i = i + 1;
    }
    assert(digits.take(i - start) =~= digits);
    Some(value)
}

/// Reads a baud rate from its decimal text.
///
/// The text is an optional `+` followed by decimal digits, and the number
/// must fit in 32 bits. Any other text is answered with a message that
/// quotes it.
pub fn valid_baud(val: &str) -> (r: Result<u32, String>)
    ensures
        match r {
            Ok(baud) => parsed_baud(val@) == Some(baud),
            Err(message) => parsed_baud(val@) is None && message@ == invalid_baud_message(val@),
        },
{
    match parse_decimal(val) {
        Some(baud) => Ok(baud),
        None => {
            let mut message = "Invalid baud rate '".to_owned();
            message.append(val);
            message.append("' specified");
            Err(message)
        },
    }
}

} // verus!
