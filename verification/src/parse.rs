//! Textual parses of the leaf types: strings, integers in decimal notation,
//! booleans and characters.

use crate::escape::same_text;
use crate::impls::XmlFromStr;
use vstd::prelude::*;
use vstd::string::StrSliceExecFns;

verus! {

/// Whether `c` is one of the digits `0` to `9`.
pub open spec fn is_digit(c: char) -> bool {
    48 <= c as int <= 57
}

/// The number that a sequence of decimal digits denotes.
pub open spec fn digits_value(digits: Seq<char>) -> nat
    decreases digits.len(),
{
    if digits.len() == 0 {
        0
    } else {
        (digits_value(digits.drop_last()) * 10 + (digits.last() as int - 48)) as nat
    }
}

/// Whether every character is a decimal digit.
pub open spec fn all_digits(digits: Seq<char>) -> bool {
    forall|i: int| 0 <= i < digits.len() ==> is_digit(#[trigger] digits[i])
}

/// Whether a text starts with a sign that the notation accepts: `+`, or
/// `-` for a signed type.
pub open spec fn has_sign(text: Seq<char>, signed: bool) -> bool {
    text.len() > 0 && (text[0] == '+' || (signed && text[0] == '-'))
}

/// The digits of a text: what follows its sign.
pub open spec fn digits_of(text: Seq<char>, signed: bool) -> Seq<char> {
    if has_sign(text, signed) {
        text.skip(1)
    } else {
        text
    }
}

/// Whether a text denotes a negative number.
pub open spec fn is_negative(text: Seq<char>, signed: bool) -> bool {
    signed && text.len() > 0 && text[0] == '-'
}

/// Message for an empty text.
pub open spec fn empty_message() -> Seq<char> {
    "cannot parse integer from empty string"@
}

/// Message for a text that holds a character that is no digit, or no
/// digit at all.
pub open spec fn digit_message() -> Seq<char> {
    "invalid digit found in string"@
}

/// Message for a number above the type's range.
pub open spec fn large_message() -> Seq<char> {
    "number too large to fit in target type"@
}

/// Message for a number below the type's range.
pub open spec fn small_message() -> Seq<char> {
    "number too small to fit in target type"@
}

/// Why digits do not give a number of a type.
pub enum Flaw {
    /// A character is no digit.
    Digit,
    /// The number is out of the type's range.
    Range,
}

/// What reading digits from left to right gives, for a magnitude of at
/// most `bound` and with the number `so_far` read before them: each digit
/// is appended to the number, and the first character that is no digit, or
/// the first digit that takes the number above `bound`, ends the reading.
pub open spec fn magnitude_spec(digits: Seq<char>, bound: nat, so_far: nat) -> std::result::Result<
    nat,
    Flaw,
>
    decreases digits.len(),
{
    if digits.len() == 0 {
        Ok(so_far)
    } else if !is_digit(digits[0]) {
        Err(Flaw::Digit)
    } else if so_far * 10 + (digits[0] as int - 48) > bound {
        Err(Flaw::Range)
    } else {
        magnitude_spec(digits.skip(1), bound, (so_far * 10 + (digits[0] as int - 48)) as nat)
    }
}

/// What the parse of an integer in decimal notation returns for a type
/// with the range `min ..= max`: an optional sign, then one digit or more,
/// read from left to right as [`magnitude_spec`] says. The first flaw
/// decides the message.
pub open spec fn integer_spec(text: Seq<char>, signed: bool, min: int, max: int) -> std::result::Result<
    int,
    Seq<char>,
> {
    let digits = digits_of(text, signed);
    let negative = is_negative(text, signed);
    let bound = if negative {
        -min
    } else {
        max
    };
    if text.len() == 0 {
        Err(empty_message())
    } else if digits.len() == 0 {
        Err(digit_message())
    } else {
        match magnitude_spec(digits, bound as nat, 0) {
            Ok(magnitude) => Ok(
                if negative {
                    -(magnitude as int)
                } else {
                    magnitude as int
                },
            ),
            Err(Flaw::Digit) => Err(digit_message()),
            Err(Flaw::Range) => Err(
                if negative {
                    small_message()
                } else {
                    large_message()
                },
            ),
        }
    }
}

/// Digits that are read without a flaw, after the first `n` of them gave
/// the number that they denote, are all digits, and the number read is the
/// number that they denote.
proof fn magnitude_from(digits: Seq<char>, bound: nat, n: int)
    requires
        0 <= n <= digits.len(),
        all_digits(digits.take(n)),
        magnitude_spec(digits.skip(n), bound, digits_value(digits.take(n))) is Ok,
    ensures
        all_digits(digits),
        magnitude_spec(digits.skip(n), bound, digits_value(digits.take(n))) == Ok::<nat, Flaw>(
            digits_value(digits),
        ),
    decreases digits.len() - n,
{
    if n == digits.len() {
        assert(digits.take(n) =~= digits);
    } else {
        assert(digits.skip(n)[0] == digits[n]);
        assert(digits.skip(n).skip(1) =~= digits.skip(n + 1));
        assert(digits.take(n + 1).drop_last() =~= digits.take(n));
        assert forall|k: int| 0 <= k < n + 1 implies is_digit(#[trigger] digits.take(n + 1)[k]) by {
            if k < n {
                assert(digits.take(n)[k] == digits.take(n + 1)[k]);
            }
        }
        magnitude_from(digits, bound, n + 1);
    }
}

/// Where digits give a number, they are all digits, and the number is the
/// number that they denote in decimal notation, within the bound.
pub proof fn magnitude_is_the_number(digits: Seq<char>, bound: nat)
    requires
        magnitude_spec(digits, bound, 0) is Ok,
    ensures
        all_digits(digits),
        magnitude_spec(digits, bound, 0) == Ok::<nat, Flaw>(digits_value(digits)),
{
    assert(digits.take(0) =~= Seq::<char>::empty());
    assert(digits.skip(0) =~= digits);
    magnitude_from(digits, bound, 0);
}

/// Parses the sign and the magnitude of an integer in decimal notation,
/// for a type that holds magnitudes up to `limit` (up to `low_limit` for a
/// negative number).
pub fn parse_decimal(text: &str, signed: bool, low_limit: u128, limit: u128) -> (r:
    std::result::Result<(bool, u128), String>)
    ensures
        match r {
            Ok((negative, magnitude)) => integer_spec(
                text@,
                signed,
                -(low_limit as int),
                limit as int,
            ) == Ok::<int, Seq<char>>(
                if negative {
                    -(magnitude as int)
                } else {
                    magnitude as int
                },
            ) && negative == is_negative(text@, signed) && magnitude <= (if negative {
                low_limit
            } else {
                limit
            }),
            Err(message) => integer_spec(text@, signed, -(low_limit as int), limit as int) == Err::<
                int,
                Seq<char>,
            >(message@),
        },
{
    let len: usize = text.unicode_len();
    if len == 0 {
        return Err("cannot parse integer from empty string".to_owned());
    }
    let first = text.get_char(0);
    let negative = signed && first == '-';
    let start: usize = if first == '+' || negative {
        1
    } else {
        0
    };
    let bound: u128 = if negative {
        low_limit
    } else {
        limit
    };
    let ghost digits = digits_of(text@, signed);
    assert(digits =~= text@.skip(start as int));
    if start == len {
        return Err("invalid digit found in string".to_owned());
    }
    let mut magnitude: u128 = 0;
    let mut i: usize = start;
    assert(digits.skip(0) =~= digits);
    while i < len
        invariant
            start <= i <= len,
            len == text@.len(),
            text@.len() > 0,
            digits == text@.skip(start as int),
            digits == digits_of(text@, signed),
            digits.len() > 0,
            negative == is_negative(text@, signed),
            bound == if negative {
                low_limit
            } else {
                limit
            },
            magnitude <= bound,
            magnitude_spec(digits, bound as nat, 0) == magnitude_spec(
                digits.skip(i - start),
                bound as nat,
                magnitude as nat,
            ),
        decreases len - i,
    {
        let c = text.get_char(i);
        let code: u32 = c as u32;
        let ghost n = i - start;
        assert(digits.skip(n)[0] == c);
        assert(digits.skip(n).skip(1) =~= digits.skip(n + 1));
        if code < 48 || code > 57 {
            return Err("invalid digit found in string".to_owned());
        }
        let digit: u128 = (code - 48) as u128;
        if digit > bound || magnitude > (bound - digit) / 10 {
            if negative {
                return Err("number too small to fit in target type".to_owned());
            } else {
                return Err("number too large to fit in target type".to_owned());
            }
        }
        magnitude = magnitude * 10 + digit;
        i = i + 1;
    }
    Ok((negative, magnitude))
}

impl XmlFromStr for String {
    type Value = Seq<char>;

    open spec fn value(&self) -> Seq<char> {
        self@
    }

    open spec fn parse_spec(text: Seq<char>) -> std::result::Result<Seq<char>, Seq<char>> {
        Ok(text)
    }

    fn from_xml_str(text: &str) -> std::result::Result<String, String> {
        Ok(text.to_owned())
    }
}

/// Message for a text that is neither `true` nor `false`.
pub open spec fn bool_message() -> Seq<char> {
    "provided string was not `true` or `false`"@
}

impl XmlFromStr for bool {
    type Value = bool;

    open spec fn value(&self) -> bool {
        *self
    }

    open spec fn parse_spec(text: Seq<char>) -> std::result::Result<bool, Seq<char>> {
        if text == "true"@ {
            Ok(true)
        } else if text == "false"@ {
            Ok(false)
        } else {
            Err(bool_message())
        }
    }

    fn from_xml_str(text: &str) -> std::result::Result<bool, String> {
        if same_text(text, "true") {
            Ok(true)
        } else if same_text(text, "false") {
            Ok(false)
        } else {
            Err("provided string was not `true` or `false`".to_owned())
        }
    }
}

impl XmlFromStr for char {
    type Value = char;

    open spec fn value(&self) -> char {
        *self
    }

    open spec fn parse_spec(text: Seq<char>) -> std::result::Result<char, Seq<char>> {
        if text.len() == 0 {
            Err("cannot parse char from empty string"@)
        } else if text.len() == 1 {
            Ok(text[0])
        } else {
            Err("too many characters in string"@)
        }
    }

    fn from_xml_str(text: &str) -> std::result::Result<char, String> {
        let len: usize = text.unicode_len();
        if len == 0 {
            Err("cannot parse char from empty string".to_owned())
        } else if len == 1 {
            Ok(text.get_char(0))
        } else {
            Err("too many characters in string".to_owned())
        }
    }
}

impl XmlFromStr for u8 {
    type Value = u8;

    open spec fn value(&self) -> u8 {
        *self
    }

    open spec fn parse_spec(text: Seq<char>) -> std::result::Result<u8, Seq<char>> {
        match integer_spec(text, false, 0, u8::MAX as int) {
            Ok(number) => Ok(number as u8),
            Err(message) => Err(message),
        }
    }

    fn from_xml_str(text: &str) -> std::result::Result<u8, String> {
        match parse_decimal(text, false, u8::MAX as u128, u8::MAX as u128) {
            Ok((_, magnitude)) => Ok(magnitude as u8),
            Err(message) => Err(message),
        }
    }
}

impl XmlFromStr for u16 {
    type Value = u16;

    open spec fn value(&self) -> u16 {
        *self
    }

    open spec fn parse_spec(text: Seq<char>) -> std::result::Result<u16, Seq<char>> {
        match integer_spec(text, false, 0, u16::MAX as int) {
            Ok(number) => Ok(number as u16),
            Err(message) => Err(message),
        }
    }

    fn from_xml_str(text: &str) -> std::result::Result<u16, String> {
        match parse_decimal(text, false, u16::MAX as u128, u16::MAX as u128) {
            Ok((_, magnitude)) => Ok(magnitude as u16),
            Err(message) => Err(message),
        }
    }
}

impl XmlFromStr for u32 {
    type Value = u32;

    open spec fn value(&self) -> u32 {
        *self
    }

    open spec fn parse_spec(text: Seq<char>) -> std::result::Result<u32, Seq<char>> {
        match integer_spec(text, false, 0, u32::MAX as int) {
            Ok(number) => Ok(number as u32),
            Err(message) => Err(message),
        }
    }

    fn from_xml_str(text: &str) -> std::result::Result<u32, String> {
        match parse_decimal(text, false, u32::MAX as u128, u32::MAX as u128) {
            Ok((_, magnitude)) => Ok(magnitude as u32),
            Err(message) => Err(message),
        }
    }
}

impl XmlFromStr for u64 {
    type Value = u64;

    open spec fn value(&self) -> u64 {
        *self
    }

    open spec fn parse_spec(text: Seq<char>) -> std::result::Result<u64, Seq<char>> {
        match integer_spec(text, false, 0, u64::MAX as int) {
            Ok(number) => Ok(number as u64),
            Err(message) => Err(message),
        }
    }

    fn from_xml_str(text: &str) -> std::result::Result<u64, String> {
        match parse_decimal(text, false, u64::MAX as u128, u64::MAX as u128) {
            Ok((_, magnitude)) => Ok(magnitude as u64),
            Err(message) => Err(message),
        }
    }
}

impl XmlFromStr for u128 {
    type Value = u128;

    open spec fn value(&self) -> u128 {
        *self
    }

    open spec fn parse_spec(text: Seq<char>) -> std::result::Result<u128, Seq<char>> {
        match integer_spec(text, false, 0, u128::MAX as int) {
            Ok(number) => Ok(number as u128),
            Err(message) => Err(message),
        }
    }

    fn from_xml_str(text: &str) -> std::result::Result<u128, String> {
        match parse_decimal(text, false, u128::MAX as u128, u128::MAX as u128) {
            Ok((_, magnitude)) => Ok(magnitude as u128),
            Err(message) => Err(message),
        }
    }
}

impl XmlFromStr for i8 {
    type Value = i8;

    open spec fn value(&self) -> i8 {
        *self
    }

    open spec fn parse_spec(text: Seq<char>) -> std::result::Result<i8, Seq<char>> {
        match integer_spec(text, true, i8::MIN as int, i8::MAX as int) {
            Ok(number) => Ok(number as i8),
            Err(message) => Err(message),
        }
    }

    fn from_xml_str(text: &str) -> std::result::Result<i8, String> {
        match parse_decimal(text, true, 128, i8::MAX as u128) {
            Ok((negative, magnitude)) => {
                let number: i128 = if negative {
                    -(magnitude as i128)
                } else {
                    magnitude as i128
                };
                Ok(number as i8)
            },
            Err(message) => Err(message),
        }
    }
}

impl XmlFromStr for i16 {
    type Value = i16;

    open spec fn value(&self) -> i16 {
        *self
    }

    open spec fn parse_spec(text: Seq<char>) -> std::result::Result<i16, Seq<char>> {
        match integer_spec(text, true, i16::MIN as int, i16::MAX as int) {
            Ok(number) => Ok(number as i16),
            Err(message) => Err(message),
        }
    }

    fn from_xml_str(text: &str) -> std::result::Result<i16, String> {
        match parse_decimal(text, true, 32768, i16::MAX as u128) {
            Ok((negative, magnitude)) => {
                let number: i128 = if negative {
                    -(magnitude as i128)
                } else {
                    magnitude as i128
                };
                Ok(number as i16)
            },
            Err(message) => Err(message),
        }
    }
}

impl XmlFromStr for i32 {
    type Value = i32;

    open spec fn value(&self) -> i32 {
        *self
    }

    open spec fn parse_spec(text: Seq<char>) -> std::result::Result<i32, Seq<char>> {
        match integer_spec(text, true, i32::MIN as int, i32::MAX as int) {
            Ok(number) => Ok(number as i32),
            Err(message) => Err(message),
        }
    }

    fn from_xml_str(text: &str) -> std::result::Result<i32, String> {
        match parse_decimal(text, true, 2147483648, i32::MAX as u128) {
            Ok((negative, magnitude)) => {
                let number: i128 = if negative {
                    -(magnitude as i128)
                } else {
                    magnitude as i128
                };
                Ok(number as i32)
            },
            Err(message) => Err(message),
        }
    }
}

impl XmlFromStr for i64 {
    type Value = i64;

    open spec fn value(&self) -> i64 {
        *self
    }

    open spec fn parse_spec(text: Seq<char>) -> std::result::Result<i64, Seq<char>> {
        match integer_spec(text, true, i64::MIN as int, i64::MAX as int) {
            Ok(number) => Ok(number as i64),
            Err(message) => Err(message),
        }
    }

    fn from_xml_str(text: &str) -> std::result::Result<i64, String> {
        match parse_decimal(text, true, 9223372036854775808, i64::MAX as u128) {
            Ok((negative, magnitude)) => {
                let number: i128 = if negative {
                    -(magnitude as i128)
                } else {
                    magnitude as i128
                };
                Ok(number as i64)
            },
            Err(message) => Err(message),
        }
    }
}

} // verus!
