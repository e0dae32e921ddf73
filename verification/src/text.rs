//! Reading one text value as a primitive: what each reading means, and the
//! standard parsers that perform it.

use vstd::prelude::*;

verus! {

/// `c` is one of the ten decimal digits `0` to `9`.
pub open spec fn is_decimal_digit(c: char) -> bool {
    '0' <= c && c <= '9'
}

/// The number that the decimal digit `c` stands for.
pub open spec fn digit_value(c: char) -> int {
    c as int - '0' as int
}

/// The number written by the decimal digits `digits`, most significant first.
pub open spec fn digits_value(digits: Seq<char>) -> int
    decreases digits.len(),
{
    if digits.len() == 0 {
        0
    } else {
        digits_value(digits.drop_last()) * 10 + digit_value(digits.last())
    }
}

/// The number written by `digits`, where `digits` is one or more decimal
/// digits and nothing else.
pub open spec fn unsigned_decimal(digits: Seq<char>) -> Option<int> {
    if digits.len() > 0 && (forall|i: int| 0 <= i < digits.len() ==> is_decimal_digit(#[trigger] digits[i])) {
        Some(digits_value(digits))
    } else {
        None
    }
}

/// The integer that `text` writes in decimal: an optional `+`, or an optional
/// `-` where `signed` holds, and then one or more digits. No other text
/// writes an integer.
pub open spec fn decimal_integer(text: Seq<char>, signed: bool) -> Option<int> {
    if text.len() > 0 && text[0] == '+' {
        unsigned_decimal(text.skip(1))
    } else if signed && text.len() > 0 && text[0] == '-' {
        match unsigned_decimal(text.skip(1)) {
            Some(magnitude) => Some(-magnitude),
            None => None,
        }
    } else {
        unsigned_decimal(text)
    }
}

/// The integer that `text` writes, where it lies between `min` and `max`.
pub open spec fn integer_within(text: Seq<char>, signed: bool, min: int, max: int) -> Option<int> {
    match decimal_integer(text, signed) {
        Some(v) => if min <= v <= max { Some(v) } else { None },
        None => None,
    }
}

/// The truth value that `text` writes: `true` or `false`, spelled exactly.
pub open spec fn bool_text(text: Seq<char>) -> Option<bool> {
    if text == "true"@ {
        Some(true)
    } else if text == "false"@ {
        Some(false)
    } else {
        None
    }
}

/// The character that `text` consists of, where it is exactly one character.
pub open spec fn char_text(text: Seq<char>) -> Option<char> {
    if text.len() == 1 {
        Some(text[0])
    } else {
        None
    }
}

/// The `i8` that `text` writes in decimal.
pub open spec fn i8_text(text: Seq<char>) -> Option<i8> {
    match integer_within(text, true, i8::MIN as int, i8::MAX as int) {
        Some(v) => Some(v as i8),
        None => None,
    }
}

/// The `i16` that `text` writes in decimal.
pub open spec fn i16_text(text: Seq<char>) -> Option<i16> {
    match integer_within(text, true, i16::MIN as int, i16::MAX as int) {
        Some(v) => Some(v as i16),
        None => None,
    }
}

/// The `i32` that `text` writes in decimal.
pub open spec fn i32_text(text: Seq<char>) -> Option<i32> {
    match integer_within(text, true, i32::MIN as int, i32::MAX as int) {
        Some(v) => Some(v as i32),
        None => None,
    }
}

/// The `i64` that `text` writes in decimal.
pub open spec fn i64_text(text: Seq<char>) -> Option<i64> {
    match integer_within(text, true, i64::MIN as int, i64::MAX as int) {
        Some(v) => Some(v as i64),
        None => None,
    }
}

/// The `i128` that `text` writes in decimal.
pub open spec fn i128_text(text: Seq<char>) -> Option<i128> {
    match integer_within(text, true, i128::MIN as int, i128::MAX as int) {
        Some(v) => Some(v as i128),
        None => None,
    }
}

/// The `u8` that `text` writes in decimal.
pub open spec fn u8_text(text: Seq<char>) -> Option<u8> {
    match integer_within(text, false, u8::MIN as int, u8::MAX as int) {
        Some(v) => Some(v as u8),
        None => None,
    }
}

/// The `u16` that `text` writes in decimal.
pub open spec fn u16_text(text: Seq<char>) -> Option<u16> {
    match integer_within(text, false, u16::MIN as int, u16::MAX as int) {
        Some(v) => Some(v as u16),
        None => None,
    }
}

/// The `u32` that `text` writes in decimal.
pub open spec fn u32_text(text: Seq<char>) -> Option<u32> {
    match integer_within(text, false, u32::MIN as int, u32::MAX as int) {
        Some(v) => Some(v as u32),
        None => None,
    }
}

/// The `u64` that `text` writes in decimal.
pub open spec fn u64_text(text: Seq<char>) -> Option<u64> {
    match integer_within(text, false, u64::MIN as int, u64::MAX as int) {
        Some(v) => Some(v as u64),
        None => None,
    }
}

/// The `u128` that `text` writes in decimal.
pub open spec fn u128_text(text: Seq<char>) -> Option<u128> {
    match integer_within(text, false, u128::MIN as int, u128::MAX as int) {
        Some(v) => Some(v as u128),
        None => None,
    }
}

/// `str::parse::<bool>`: accepts the two texts `true` and `false` and no other.
#[verifier::external_body]
pub(crate) fn parse_bool(text: &str) -> (parsed: Option<bool>)
    ensures
        parsed == bool_text(text@),
{
    text.parse::<bool>().ok()
}

/// `str::parse::<char>`: accepts a text of exactly one character and yields it.
#[verifier::external_body]
pub(crate) fn parse_char(text: &str) -> (parsed: Option<char>)
    ensures
        parsed == char_text(text@),
{
    text.parse::<char>().ok()
}

/// `str::parse::<i8>`: accepts an optional `+` or `-` and then one or more
/// decimal digits, nothing else, and yields the integer written where it
/// fits in `i8`.
#[verifier::external_body]
pub(crate) fn parse_i8(text: &str) -> (parsed: Option<i8>)
    ensures
        parsed == i8_text(text@),
{
    text.parse::<i8>().ok()
}

/// `str::parse::<i16>`: accepts an optional `+` or `-` and then one or more
/// decimal digits, nothing else, and yields the integer written where it
/// fits in `i16`.
#[verifier::external_body]
pub(crate) fn parse_i16(text: &str) -> (parsed: Option<i16>)
    ensures
        parsed == i16_text(text@),
{
    text.parse::<i16>().ok()
}

/// `str::parse::<i32>`: accepts an optional `+` or `-` and then one or more
/// decimal digits, nothing else, and yields the integer written where it
/// fits in `i32`.
#[verifier::external_body]
pub(crate) fn parse_i32(text: &str) -> (parsed: Option<i32>)
    ensures
        parsed == i32_text(text@),
{
    text.parse::<i32>().ok()
}

/// `str::parse::<i64>`: accepts an optional `+` or `-` and then one or more
/// decimal digits, nothing else, and yields the integer written where it
/// fits in `i64`.
#[verifier::external_body]
pub(crate) fn parse_i64(text: &str) -> (parsed: Option<i64>)
    ensures
        parsed == i64_text(text@),
{
    text.parse::<i64>().ok()
}

/// `str::parse::<i128>`: accepts an optional `+` or `-` and then one or more
/// decimal digits, nothing else, and yields the integer written where it
/// fits in `i128`.
#[verifier::external_body]
pub(crate) fn parse_i128(text: &str) -> (parsed: Option<i128>)
    ensures
        parsed == i128_text(text@),
{
    text.parse::<i128>().ok()
}

/// `str::parse::<u8>`: accepts an optional `+` and then one or more
/// decimal digits, nothing else, and yields the integer written where it
/// fits in `u8`.
#[verifier::external_body]
pub(crate) fn parse_u8(text: &str) -> (parsed: Option<u8>)
    ensures
        parsed == u8_text(text@),
{
    text.parse::<u8>().ok()
}

/// `str::parse::<u16>`: accepts an optional `+` and then one or more
/// decimal digits, nothing else, and yields the integer written where it
/// fits in `u16`.
#[verifier::external_body]
pub(crate) fn parse_u16(text: &str) -> (parsed: Option<u16>)
    ensures
        parsed == u16_text(text@),
{
    text.parse::<u16>().ok()
}

/// `str::parse::<u32>`: accepts an optional `+` and then one or more
/// decimal digits, nothing else, and yields the integer written where it
/// fits in `u32`.
#[verifier::external_body]
pub(crate) fn parse_u32(text: &str) -> (parsed: Option<u32>)
    ensures
        parsed == u32_text(text@),
{
    text.parse::<u32>().ok()
}

/// `str::parse::<u64>`: accepts an optional `+` and then one or more
/// decimal digits, nothing else, and yields the integer written where it
/// fits in `u64`.
#[verifier::external_body]
pub(crate) fn parse_u64(text: &str) -> (parsed: Option<u64>)
    ensures
        parsed == u64_text(text@),
{
    text.parse::<u64>().ok()
}

/// `str::parse::<u128>`: accepts an optional `+` and then one or more
/// decimal digits, nothing else, and yields the integer written where it
/// fits in `u128`.
#[verifier::external_body]
pub(crate) fn parse_u128(text: &str) -> (parsed: Option<u128>)
    ensures
        parsed == u128_text(text@),
{
    text.parse::<u128>().ok()
}

} // verus!
