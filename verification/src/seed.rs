//! Seeds as text.
//!
//! A seed is shown and entered in hexadecimal. A text is a seed where,
//! after an optional `0x` and an optional `+`, it holds nothing but
//! hexadecimal digits, at least one, in either case, and their value fits
//! into 64 bits. Any other text is malformed.

use vstd::prelude::*;
use vstd::string::{StringExecFns, StringSliceAdditionalSpecFns};
use vstd::utf8::{encode_utf8, is_ascii_chars, is_ascii_chars_encode_utf8};

verus! {

/// The one way in which a text fails to be a seed.
#[derive(Debug, Clone, Copy, PartialEq, Eq)]
pub struct MalformedSeed;

/// The value of a byte as a hexadecimal digit: `0` to `9`, `a` to `f` or
/// `A` to `F`.
pub open spec fn hex_digit(byte: u8) -> Option<u8> {
    if 0x30 <= byte <= 0x39 {
        Some((byte - 0x30) as u8)
    } else if 0x61 <= byte <= 0x66 {
        Some((byte - 0x61 + 10) as u8)
    } else if 0x41 <= byte <= 0x46 {
        Some((byte - 0x41 + 10) as u8)
    } else {
        None
    }
}

/// Every byte is a hexadecimal digit.
pub open spec fn is_hex(digits: Seq<u8>) -> bool {
    forall|i: int| 0 <= i < digits.len() ==> hex_digit(#[trigger] digits[i]) is Some
}

/// The number that hexadecimal digits write, the first digit weighing most.
pub open spec fn hex_value(digits: Seq<u8>) -> nat
    decreases digits.len(),
{
    if digits.len() == 0 {
        0
    } else {
        16 * hex_value(digits.drop_last()) + hex_digit(digits.last()).unwrap() as nat
    }
}

/// The text without a leading `0x`, and without a `+` that leads what is
/// left.
pub open spec fn seed_digits(text: Seq<u8>) -> Seq<u8> {
    let unprefixed = if text.len() >= 2 && text[0] == 0x30 && text[1] == 0x78 {
        text.skip(2)
    } else {
        text
    };
    if unprefixed.len() >= 1 && unprefixed[0] == 0x2b {
        unprefixed.skip(1)
    } else {
        unprefixed
    }
}

/// The seed that a text stands for, if it is one.
pub open spec fn seed_of_text(text: Seq<u8>) -> Option<u64> {
    let digits = seed_digits(text);
    if digits.len() > 0 && is_hex(digits) && hex_value(digits) <= u64::MAX {
        Some(hex_value(digits) as u64)
    } else {
        None
    }
}

/// The first digits of a number write no more than all of them.
pub proof fn lemma_hex_value_grows(digits: Seq<u8>, n: int)
    requires
        0 <= n <= digits.len(),
    ensures
        hex_value(digits.take(n)) <= hex_value(digits),
    decreases digits.len(),
{
    if n == digits.len() {
        assert(digits.take(n) =~= digits);
    } else {
        assert(digits.drop_last().take(n) =~= digits.take(n));
        lemma_hex_value_grows(digits.drop_last(), n);
    }
}

/// The value of a byte as a hexadecimal digit, if it is one.
pub fn digit_of(byte: u8) -> (digit: Option<u8>)
    ensures
        digit == hex_digit(byte),
        digit matches Some(d) ==> d < 16,
{
    if 0x30 <= byte && byte <= 0x39 {
        Some(byte - 0x30)
    } else if 0x61 <= byte && byte <= 0x66 {
        Some(byte - 0x61 + 10)
    } else if 0x41 <= byte && byte <= 0x46 {
        Some(byte - 0x41 + 10)
    } else {
        None
    }
}

/// Reads a seed from hexadecimal text, or reports the text as malformed.
pub fn parse_seed(text: &str) -> (parsed: Result<u64, MalformedSeed>)
    ensures
        match seed_of_text(text.spec_bytes()) {
            Some(seed) => parsed == Ok::<u64, MalformedSeed>(seed),
            None => parsed is Err,
        },
{
    let bytes = text.as_bytes();
    let n: usize = bytes.len();
    let mut start: usize = 0;
    if n >= 2 && bytes[0] == 0x30 && bytes[1] == 0x78 {
        start = 2;
    }
    if start < n && bytes[start] == 0x2b {
        start = start + 1;
    }
    let ghost digits = bytes@.skip(start as int);
    assert(digits =~= seed_digits(bytes@));
    if start == n {
        return Err(MalformedSeed);
    }
    let mut value: u64 = 0;
    let mut i: usize = start;
    assert(digits.take(0) =~= Seq::<u8>::empty());
    while i < n
        invariant
            start <= i <= n,
            n == bytes@.len(),
            digits == bytes@.skip(start as int),
            digits == seed_digits(text.spec_bytes()),
            is_hex(digits.take(i - start)),
            value == hex_value(digits.take(i - start)),
        decreases n - i,
    {
        let ghost seen = digits.take(i - start);
        let ghost next = digits.take(i - start + 1);
        proof {
            assert(next.drop_last() =~= seen);
            assert(next.last() == bytes@[i as int]);
            lemma_hex_value_grows(digits, i - start + 1);
        }
        let digit: u8 = match digit_of(bytes[i]) {
            Some(d) => d,
            None => {
                assert(hex_digit(digits[i - start]) is None);
                return Err(MalformedSeed);
            },
        };
        if value > 0x0fff_ffff_ffff_ffff {
            return Err(MalformedSeed);
        }
        value = value * 16 + digit as u64;
        i = i + 1;
        assert(is_hex(next)) by {
            assert forall|j: int| 0 <= j < next.len() implies hex_digit(#[trigger] next[j])
                is Some by {
                if j < seen.len() {
                    assert(next[j] == seen[j]);
                }
            }
        }
    }
    assert(digits.take(n - start) =~= digits);
    Ok(value)
}

/// The lower-case hexadecimal digit for a value below 16.
pub open spec fn digit_char(digit: nat) -> char {
    if digit == 0 {
        '0'
    } else if digit == 1 {
        '1'
    } else if digit == 2 {
        '2'
    } else if digit == 3 {
        '3'
    } else if digit == 4 {
        '4'
    } else if digit == 5 {
        '5'
    } else if digit == 6 {
        '6'
    } else if digit == 7 {
        '7'
    } else if digit == 8 {
        '8'
    } else if digit == 9 {
        '9'
    } else if digit == 10 {
        'a'
    } else if digit == 11 {
        'b'
    } else if digit == 12 {
        'c'
    } else if digit == 13 {
        'd'
    } else if digit == 14 {
        'e'
    } else {
        'f'
    }
}

/// The hexadecimal digits of a number, without leading zeros; zero is
/// written as one digit.
pub open spec fn hex_text(value: nat) -> Seq<char>
    decreases value,
{
    if value < 16 {
        seq![digit_char(value)]
    } else {
        hex_text(value / 16).push(digit_char(value % 16))
    }
}

/// The text of a seed: `0x` and its hexadecimal digits.
pub open spec fn seed_text_of(seed: u64) -> Seq<char> {
    seq!['0', 'x'] + hex_text(seed as nat)
}

/// The bytes of a text of ASCII characters.
pub open spec fn ascii_bytes(chars: Seq<char>) -> Seq<u8> {
    Seq::new(chars.len(), |i: int| chars[i] as u8)
}

/// The digits of a number are ASCII characters, and read as hexadecimal
/// they give the number back.
pub proof fn lemma_hex_text_value(value: nat)
    ensures
        hex_text(value).len() >= 1,
        is_ascii_chars(hex_text(value)),
        is_hex(ascii_bytes(hex_text(value))),
        hex_value(ascii_bytes(hex_text(value))) == value,
    decreases value,
{
    let last = digit_char(value % 16);
    assert(hex_digit(last as u8) == Some((value % 16) as u8));
    let bytes = ascii_bytes(hex_text(value));
    if value < 16 {
        assert(bytes.drop_last() =~= Seq::<u8>::empty());
        assert(hex_value(bytes.drop_last()) == 0);
        assert(bytes.last() == last as u8);
    } else {
        lemma_hex_text_value(value / 16);
        let front = ascii_bytes(hex_text(value / 16));
        assert(bytes.drop_last() =~= front);
        assert(bytes.last() == last as u8);
        assert forall|i: int| 0 <= i < bytes.len() implies hex_digit(#[trigger] bytes[i])
            is Some by {
            if i < front.len() {
                assert(bytes[i] == front[i]);
            }
        }
    }
}

/// A seed written as text and read again is the same seed.
pub proof fn lemma_seed_text_round_trip(seed: u64)
    ensures
        is_ascii_chars(seed_text_of(seed)),
        seed_of_text(encode_utf8(seed_text_of(seed))) == Some(seed),
{
    let chars = seed_text_of(seed);
    let digits = hex_text(seed as nat);
    lemma_hex_text_value(seed as nat);
    assert(is_ascii_chars(chars)) by {
        assert forall|i: int| 0 <= i < chars.len() implies '\0' <= #[trigger] chars[i]
            <= '\u{7f}' by {
            if i >= 2 {
                assert(chars[i] == digits[i - 2]);
            }
        }
    }
    is_ascii_chars_encode_utf8(chars);
    let bytes = encode_utf8(chars);
    assert(bytes =~= ascii_bytes(chars));
    assert(bytes[0] == 0x30 && bytes[1] == 0x78);
    assert(bytes.skip(2) =~= ascii_bytes(digits));
    assert(hex_digit(ascii_bytes(digits)[0]) is Some);
    assert(seed_digits(bytes) == ascii_bytes(digits));
}

/// The lower-case hexadecimal digit for a value below 16, as text.
fn digit_text(digit: u8) -> (text: &'static str)
    requires
        digit < 16,
    ensures
        text@ == seq![digit_char(digit as nat)],
{
    proof {
        reveal_strlit("0");
        reveal_strlit("1");
        reveal_strlit("2");
        reveal_strlit("3");
        reveal_strlit("4");
        reveal_strlit("5");
        reveal_strlit("6");
        reveal_strlit("7");
        reveal_strlit("8");
        reveal_strlit("9");
        reveal_strlit("a");
        reveal_strlit("b");
        reveal_strlit("c");
        reveal_strlit("d");
        reveal_strlit("e");
        reveal_strlit("f");
    }
    let text = match digit {
        0 => "0",
        1 => "1",
        2 => "2",
        3 => "3",
        4 => "4",
        5 => "5",
        6 => "6",
        7 => "7",
        8 => "8",
        9 => "9",
        10 => "a",
        11 => "b",
        12 => "c",
        13 => "d",
        14 => "e",
        _ => "f",
    };
    assert(text@ =~= seq![digit_char(digit as nat)]);
    text
}

/// Appends the hexadecimal digits of a number to a text.
fn append_hex(text: &mut String, value: u64)
    ensures
        final(text)@ == old(text)@ + hex_text(value as nat),
    decreases value,
{
    if value >= 16 {
        append_hex(text, value / 16);
    }
    text.append(digit_text((value % 16) as u8));
    assert(text@ =~= old(text)@ + hex_text(value as nat));
}

/// Writes a seed as text: `0x` and its hexadecimal digits in lower case,
/// without leading zeros. `parse_seed` reads the seed back from it.
pub fn seed_text(seed: u64) -> (text: String)
    ensures
        text@ == seed_text_of(seed),
        seed_of_text(encode_utf8(text@)) == Some(seed),
{
    proof {
        reveal_strlit("0x");
        lemma_seed_text_round_trip(seed);
    }
    let mut text = String::from_str("0x");
    append_hex(&mut text, seed);
    assert(text@ =~= seed_text_of(seed));
    text
}

} // verus!
