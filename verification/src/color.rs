//! The colour grammar: `#rrggbb` or `0xrrggbb`, read into packed ARGB.

use vstd::prelude::*;
use vstd::string::StringSliceAdditionalSpecFns;

verus! {

/// The byte that was found where a hexadecimal digit was expected.
#[derive(Debug, Clone, Copy, PartialEq, Eq)]
pub struct InvalidDigit {
    /// Position of the byte among the six digits.
    pub index: usize,
    /// The offending byte.
    pub byte: u8,
}

/// Why a string is not a colour.
#[derive(Debug, Clone, Copy, PartialEq, Eq)]
pub enum Error {
    /// The prefix is not followed by exactly six bytes.
    InvalidLength,
    /// The string starts with neither `0x` nor `#`.
    InvalidPrefix,
    /// One of the six bytes is not a hexadecimal digit.
    ParseInt(InvalidDigit),
}

/// The alpha channel of every colour the locker paints: fully opaque.
pub const OPAQUE: u32 = 0xff00_0000;

/// The red, green and blue channels of a packed colour.
pub const RGB_MASK: u32 = 0x00ff_ffff;

/// Number of hexadecimal digits in a colour.
pub const DIGITS: usize = 6;

/// `b` is one of `0-9`, `a-f`, `A-F`.
pub open spec fn is_hex_digit(b: u8) -> bool {
    ||| 0x30 <= b <= 0x39
    ||| 0x41 <= b <= 0x46
    ||| 0x61 <= b <= 0x66
}

/// The number a hexadecimal digit stands for.
pub open spec fn hex_digit_value(b: u8) -> nat {
    if 0x30 <= b <= 0x39 {
        (b - 0x30) as nat
    } else if 0x41 <= b <= 0x46 {
        (b - 0x41 + 10) as nat
    } else {
        (b - 0x61 + 10) as nat
    }
}

/// The number that a sequence of hexadecimal digits stands for, most
/// significant digit first.
pub open spec fn hex_value(digits: Seq<u8>) -> nat
    decreases digits.len(),
{
    if digits.len() == 0 {
        0
    } else {
        16 * hex_value(digits.drop_last()) + hex_digit_value(digits.last())
    }
}

/// Every byte of `digits` is a hexadecimal digit.
pub open spec fn all_hex(digits: Seq<u8>) -> bool {
    forall|i: int| 0 <= i < digits.len() ==> is_hex_digit(#[trigger] digits[i])
}

/// The position of the first byte of `digits` that is no hexadecimal
/// digit, or the number of bytes if all are.
pub open spec fn first_invalid(digits: Seq<u8>) -> int
    decreases digits.len(),
{
    if digits.len() == 0 || !is_hex_digit(digits[0]) {
        0
    } else {
        1 + first_invalid(digits.skip(1))
    }
}

/// What follows the prefix `0x` or `#`, if the text has one.
pub open spec fn strip_prefix(text: Seq<u8>) -> Option<Seq<u8>> {
    if text.len() >= 2 && text[0] == 0x30 && text[1] == 0x78 {
        Some(text.skip(2))
    } else if text.len() >= 1 && text[0] == 0x23 {
        Some(text.skip(1))
    } else {
        None
    }
}

/// The reading of the UTF-8 text `text` as a colour: a prefix, then exactly
/// six bytes, all of them hexadecimal digits. The colour is the number of
/// the digits under an opaque alpha channel.
pub open spec fn spec_from_str(text: Seq<u8>) -> Result<u32, Error> {
    match strip_prefix(text) {
        None => Err(Error::InvalidPrefix),
        Some(digits) => if digits.len() != DIGITS {
            Err(Error::InvalidLength)
        } else if first_invalid(digits) < digits.len() {
            Err(
                Error::ParseInt(
                    InvalidDigit {
                        index: first_invalid(digits) as usize,
                        byte: digits[first_invalid(digits)],
                    },
                ),
            )
        } else {
            Ok((OPAQUE + hex_value(digits)) as u32)
        },
    }
}

/// 16 to the power `n`.
pub open spec fn pow16(n: nat) -> nat
    decreases n,
{
    if n == 0 {
        1
    } else {
        16 * pow16((n - 1) as nat)
    }
}

/// The red, green and blue channel of a packed colour.
pub open spec fn spec_channels(color: u32) -> (u8, u8, u8) {
    (((color >> 16) & 0xff) as u8, ((color >> 8) & 0xff) as u8, (color & 0xff) as u8)
}

/// `first_invalid` is the position `i` before which all bytes are digits
/// and at which the bytes end or a byte is no digit.
pub proof fn lemma_first_invalid(digits: Seq<u8>, i: int)
    requires
        0 <= i <= digits.len(),
        all_hex(digits.take(i)),
        i < digits.len() ==> !is_hex_digit(digits[i]),
    ensures
        first_invalid(digits) == i,
    decreases i,
{
    if i > 0 {
        let rest = digits.skip(1);
        assert(digits.take(i)[0] == digits[0]);
        assert forall|j: int| 0 <= j < i - 1 implies is_hex_digit(#[trigger] rest.take(i - 1)[j]) by {
            assert(rest.take(i - 1)[j] == digits.take(i)[j + 1]);
        }
        lemma_first_invalid(rest, i - 1);
    }
}

/// Digits stay below the power of 16 that their number allows.
pub proof fn lemma_hex_value_bound(digits: Seq<u8>)
    requires
        all_hex(digits),
    ensures
        hex_value(digits) < pow16(digits.len()),
    decreases digits.len(),
{
    if digits.len() > 0 {
        let init = digits.drop_last();
        assert forall|i: int| 0 <= i < init.len() implies is_hex_digit(#[trigger] init[i]) by {
            assert(init[i] == digits[i]);
        }
        lemma_hex_value_bound(init);
        assert(is_hex_digit(digits[digits.len() - 1]));
    }
}

/// Where all bytes are digits, none is invalid, and the other way round.
pub proof fn lemma_first_invalid_all_hex(digits: Seq<u8>)
    ensures
        0 <= first_invalid(digits) <= digits.len(),
        first_invalid(digits) == digits.len() <==> all_hex(digits),
        all_hex(digits.take(first_invalid(digits))),
        first_invalid(digits) < digits.len() ==> !is_hex_digit(digits[first_invalid(digits)]),
    decreases digits.len(),
{
    if digits.len() > 0 && is_hex_digit(digits[0]) {
        let rest = digits.skip(1);
        let k = first_invalid(rest);
        lemma_first_invalid_all_hex(rest);
        assert forall|j: int| 0 <= j < k + 1 implies is_hex_digit(#[trigger] digits.take(k + 1)[j]) by {
            if j > 0 {
                assert(digits.take(k + 1)[j] == rest.take(k)[j - 1]);
            }
        }
        if k == rest.len() {
            assert(digits.take(k + 1) =~= digits);
        }
        if all_hex(digits) {
            assert forall|j: int| 0 <= j < rest.len() implies is_hex_digit(#[trigger] rest[j]) by {
                assert(rest[j] == digits[j + 1]);
            }
        }
        if k < rest.len() {
            assert(rest[k] == digits[k + 1]);
        }
    } else if digits.len() > 0 {
        assert(digits.take(0) =~= Seq::<u8>::empty());
    } else {
        assert(digits.take(0) =~= digits);
    }
}

/// A colour that is read is opaque, and its red, green and blue are the
/// number that the six digits stand for: the number is below 2^24 and
/// leaves the alpha channel alone.
pub proof fn parsed_color_is_opaque(text: Seq<u8>)
    requires
        spec_from_str(text) is Ok,
    ensures
        spec_from_str(text)->Ok_0 & OPAQUE == OPAQUE,
        (spec_from_str(text)->Ok_0 & RGB_MASK) == hex_value(strip_prefix(text)->0),
{
    let digits = strip_prefix(text)->0;
    let color = spec_from_str(text)->Ok_0;
    lemma_first_invalid_all_hex(digits);
    lemma_hex_value_bound(digits);
    reveal_with_fuel(pow16, 7);
    let number = hex_value(digits) as u32;
    assert(color == OPAQUE + number);
    assert(0xff00_0000u32 | number == 0xff00_0000u32 + number) by (bit_vector)
        requires
            number < 0x0100_0000u32,
    ;
    assert(color == 0xff00_0000u32 | number);
    assert((0xff00_0000u32 | number) & 0xff00_0000u32 == 0xff00_0000u32 && (0xff00_0000u32
        | number) & 0x00ff_ffffu32 == number) by (bit_vector)
        requires
            number < 0x0100_0000u32,
    ;
}

/// The number a byte stands for as a hexadecimal digit.
pub fn hex_digit(b: u8) -> (r: Option<u8>)
    ensures
        r is Some <==> is_hex_digit(b),
        r matches Some(v) ==> v == hex_digit_value(b) && v < 16,
{
    if 0x30 <= b && b <= 0x39 {
        Some(b - 0x30)
    } else if 0x41 <= b && b <= 0x46 {
        Some(b - 0x41 + 10)
    } else if 0x61 <= b && b <= 0x66 {
        Some(b - 0x61 + 10)
    } else {
        None
    }
}

/// Takes a packed colour apart into red, green and blue.
pub fn channels(color: u32) -> (rgb: (u8, u8, u8))
    ensures
        rgb == spec_channels(color),
{
    assert((color >> 16) & 0xff < 256 && (color >> 8) & 0xff < 256 && color & 0xff < 256)
        by (bit_vector);
    (((color >> 16) & 0xff) as u8, ((color >> 8) & 0xff) as u8, (color & 0xff) as u8)
}

impl Error {
    /// The text of the error.
    pub open spec fn spec_message(self) -> Seq<char> {
        match self {
            Error::InvalidLength => "invalid length, color must have exactly 6 digits"@,
            Error::InvalidPrefix => "invalid color prefix, must start with '#' or '0x'"@,
            Error::ParseInt(_) => "parse error: invalid digit found in string"@,
        }
    }

    /// The text of the error.
    pub fn message(&self) -> (text: String)
        ensures
            text@ == self.spec_message(),
    {
        match self {
            Error::InvalidLength => "invalid length, color must have exactly 6 digits".to_owned(),
            Error::InvalidPrefix => "invalid color prefix, must start with '#' or '0x'".to_owned(),
            Error::ParseInt(_) => "parse error: invalid digit found in string".to_owned(),
        }
    }
}

/// Reads a colour written as `0x` or `#` and six hexadecimal digits, and
/// returns it as opaque packed ARGB.
pub fn from_str(s: &str) -> (result: Result<u32, Error>)
    ensures
        result == spec_from_str(s.spec_bytes()),
{
    let bytes = s.as_bytes();
    let n = bytes.len();
    let start: usize = if n >= 2 && bytes[0] == 0x30 && bytes[1] == 0x78 {
        2
    } else if n >= 1 && bytes[0] == 0x23 {
        1
    } else {
        return Err(Error::InvalidPrefix);
    };
    if n - start != DIGITS {
        return Err(Error::InvalidLength);
    }
    let ghost digits = bytes@.skip(start as int);
    assert(strip_prefix(s.spec_bytes()) == Some(digits));
    let mut number: u32 = 0;
    let mut i: usize = 0;
    while i < DIGITS
        invariant
            i <= DIGITS,
            n == bytes@.len(),
            n - start == DIGITS,
            digits == bytes@.skip(start as int),
            strip_prefix(s.spec_bytes()) == Some(digits),
            all_hex(digits.take(i as int)),
            number == hex_value(digits.take(i as int)),
            number < pow16(i as nat),
        decreases DIGITS - i,
    {
        let b = bytes[start + i];
        assert(b == digits[i as int]);
        match hex_digit(b) {
            Some(v) => {
                proof {
                    let next = digits.take(i + 1);
                    assert(next.drop_last() =~= digits.take(i as int));
                    assert(next.last() == b);
                    assert forall|j: int| 0 <= j < next.len() implies is_hex_digit(
                        #[trigger] next[j],
                    ) by {
                        if j < i {
                            assert(next[j] == digits.take(i as int)[j]);
                        }
                    }
                    reveal_with_fuel(pow16, 7);
                }
                number = number * 16 + v as u32;
            },
            None => {
                proof {
                    lemma_first_invalid(digits, i as int);
                }
                return Err(Error::ParseInt(InvalidDigit { index: i, byte: b }));
            },
        }
        i += 1;
    }
    proof {
        assert(digits.take(DIGITS as int) =~= digits);
        lemma_first_invalid(digits, DIGITS as int);
        reveal_with_fuel(pow16, 7);
        assert(number < 0x0100_0000);
        assert(OPAQUE | number == OPAQUE + number) by (bit_vector)
            requires
                number < 0x0100_0000u32,
                OPAQUE == 0xff00_0000u32,
        ;
    }
    Ok(OPAQUE | number)
}

/// What is said of a string that is put forward as a colour: nothing of a
/// colour, the text of the error of anything else.
pub open spec fn spec_validate(text: Seq<u8>) -> Result<(), Seq<char>> {
    match spec_from_str(text) {
        Ok(_) => Ok(()),
        Err(error) => Err(error.spec_message()),
    }
}

/// Says whether a string is a colour, and if not, why not.
pub fn validate(s: &str) -> (result: Result<(), String>)
    ensures
        result is Ok <==> spec_validate(s.spec_bytes()) is Ok,
        result matches Err(text) ==> spec_validate(s.spec_bytes()) == Err::<(), Seq<char>>(text@),
{
    match from_str(s) {
        Ok(_) => Ok(()),
        Err(error) => Err(error.message()),
    }
}

} // verus!
