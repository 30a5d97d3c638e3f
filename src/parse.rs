//! Reading battery levels and adapter states out of sysfs text.
use vstd::prelude::*;
use vstd::utf8::valid_utf8;
use crate::error::ParseError;
use crate::model::{AdapterStatus, BatLvl};

verus! {

/// Whether a byte is an ASCII decimal digit.
pub open spec fn is_digit(c: u8) -> bool {
    48 <= c <= 57
}

/// The number that a run of ASCII decimal digits writes.
pub open spec fn decimal_value(s: Seq<u8>) -> nat
    decreases s.len(),
{
    if s.len() == 0 {
        0
    } else {
        decimal_value(s.drop_last()) * 10 + (s.last() - 48) as nat
    }
}

/// Whether every byte of `s` is a digit.
pub open spec fn all_digits(s: Seq<u8>) -> bool {
    forall|i: int| 0 <= i < s.len() ==> is_digit(#[trigger] s[i])
}

/// Whether a text starts with a `+` or `-` sign.
pub open spec fn has_sign(s: Seq<u8>) -> bool {
    s.len() > 0 && (s[0] == 43u8 || s[0] == 45u8)
}

/// The digits of a text, after its sign if it has one.
pub open spec fn digits_of(s: Seq<u8>) -> Seq<u8> {
    if has_sign(s) { s.subrange(1, s.len() as int) } else { s }
}

/// The level that a text writes: an optional sign, then one or more
/// decimal digits; a level lies between 0 and 100, so a negative sign
/// admits only zero.
pub open spec fn level_of_text(s: Seq<u8>) -> Option<nat> {
    let digits = digits_of(s);
    let limit: nat = if s.len() > 0 && s[0] == 45u8 { 0 } else { 100 };
    if digits.len() == 0 || !all_digits(digits) || decimal_value(digits) > limit {
        None
    } else {
        Some(decimal_value(digits))
    }
}

/// The line that a sysfs attribute holds: valid UTF-8 that ends in a newline.
pub open spec fn is_line(raw: Seq<u8>) -> bool {
    valid_utf8(raw) && raw.len() > 0 && raw.last() == 10u8
}

/// The text of a sysfs line without its newline.
pub open spec fn line_text(raw: Seq<u8>) -> Seq<u8> {
    raw.drop_last()
}

/// The outcome of reading a battery level from a sysfs line.
pub open spec fn battery_of_line(raw: Seq<u8>) -> Result<nat, ParseError> {
    if !valid_utf8(raw) {
        Err(ParseError::NotUtf8)
    } else if !is_line(raw) {
        Err(ParseError::MissingNewline)
    } else {
        match level_of_text(line_text(raw)) {
            Some(v) => Ok(v),
            None => Err(ParseError::InvalidLevel),
        }
    }
}

/// The outcome of reading an adapter state from a sysfs line: "1" is
/// connected, any other text disconnected.
pub open spec fn adapter_of_line(raw: Seq<u8>) -> Result<AdapterStatus, ParseError> {
    if !valid_utf8(raw) {
        Err(ParseError::NotUtf8)
    } else if !is_line(raw) {
        Err(ParseError::MissingNewline)
    } else if line_text(raw) == seq![49u8] {
        Ok(AdapterStatus::Connected)
    } else {
        Ok(AdapterStatus::Disconnected)
    }
}

/// Relies on std::str::from_utf8: it succeeds exactly on valid UTF-8.
#[verifier::external_body]
pub(crate) fn utf8_ok(raw: &[u8]) -> (r: bool)
    ensures
        r == valid_utf8(raw@),
{
    std::str::from_utf8(raw).is_ok()
}

/// Relies on bounded_integer's `FromStr` for `BoundedU8<0, 100>`, which reads
/// an optional sign and decimal digits, and fails outside 0 to 100; text that
/// is not UTF-8 has no such reading.
#[verifier::external_body]
fn bounded_level(text: &[u8]) -> (r: Option<u8>)
    ensures
        match level_of_text(text@) {
            Some(v) => r == Some(v as u8),
            None => r is None,
        },
{
    match std::str::from_utf8(text) {
        Ok(s) => s.parse::<bounded_integer::BoundedU8<0, 100>>().ok().map(|l| l.get()),
        Err(_) => None,
    }
}

/// Reads a battery level from text: an optional `+` or `-`, then decimal
/// digits, of a value from 0 to 100.
pub fn parse_level(text: &[u8]) -> (r: Result<BatLvl, ParseError>)
    ensures
        match level_of_text(text@) {
            Some(v) => r matches Ok(l) && l@ == v,
            None => r == Err::<BatLvl, ParseError>(ParseError::InvalidLevel),
        },
{
    match bounded_level(text) {
        Some(v) => match BatLvl::new(v) {
            Some(l) => Ok(l),
            None => Err(ParseError::InvalidLevel),
        },
        None => Err(ParseError::InvalidLevel),
    }
}

/// Checks that a sysfs read is one line of UTF-8 text; returns the length of
/// that text without its newline.
fn parse_os_str(raw: &[u8]) -> (r: Result<usize, ParseError>)
    ensures
        !valid_utf8(raw@) ==> r == Err::<usize, ParseError>(ParseError::NotUtf8),
        valid_utf8(raw@) && !is_line(raw@) ==> r == Err::<usize, ParseError>(
            ParseError::MissingNewline,
        ),
        is_line(raw@) ==> r is Ok,
        r matches Ok(k) ==> k + 1 == raw@.len(),
{
    if !utf8_ok(raw) {
        return Err(ParseError::NotUtf8);
    }
    let n = raw.len();
    if n == 0 || raw[n - 1] != 10u8 {
        return Err(ParseError::MissingNewline);
    }
    Ok(n - 1)
}

/// Reads the battery level from the bytes of a `capacity` attribute.
pub fn parse_battery(raw: &[u8]) -> (r: Result<BatLvl, ParseError>)
    ensures
        match battery_of_line(raw@) {
            Ok(v) => r matches Ok(l) && l@ == v,
            Err(e) => r == Err::<BatLvl, ParseError>(e),
        },
{
    let end = match parse_os_str(raw) {
        Ok(end) => end,
        Err(e) => return Err(e),
    };
    assert(is_line(raw@));
    assert(end == raw@.len() - 1);
    let text = vstd::slice::slice_subrange(raw, 0, end);
    assert(text@ =~= line_text(raw@));
    parse_level(text)
}

/// Reads the adapter state from the bytes of an `online` attribute.
pub fn parse_adapter(raw: &[u8]) -> (r: Result<AdapterStatus, ParseError>)
    ensures
        r == adapter_of_line(raw@),
{
    let end = match parse_os_str(raw) {
        Ok(end) => end,
        Err(e) => return Err(e),
    };
    if end == 1 && raw[0] == 49u8 {
        assert(line_text(raw@) =~= seq![49u8]);
        Ok(AdapterStatus::Connected)
    } else {
        proof {
            if line_text(raw@) == seq![49u8] {
                assert(line_text(raw@).len() == 1);
                assert(line_text(raw@)[0] == raw@[0]);
            }
        }
        Ok(AdapterStatus::Disconnected)
    }
}

} // verus!
