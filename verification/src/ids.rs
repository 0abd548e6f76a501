//! Uuids as 128-bit integers, and their text forms (via the `uuid` crate).
use vstd::prelude::*;

use crate::error::SupportError;
use crate::text::{chars_of, string_of, trim, trim_chars};

verus! {

/// 16 to the power `n`.
pub open spec fn pow16(n: nat) -> nat
    decreases n,
{
    if n == 0 {
        1
    } else {
        16 * pow16((n - 1) as nat)
    }
}

/// The lowercase hex digit of a value below 16.
pub open spec fn hex_digit(n: int) -> char {
    if n < 10 {
        (('0' as int) + n) as char
    } else {
        (('a' as int) + n - 10) as char
    }
}

/// The 32 lowercase hex digits of a uuid, most significant first.
pub open spec fn uuid_hex(u: u128) -> Seq<char> {
    Seq::new(32, |k: int| hex_digit(((u as int) / (pow16((31 - k) as nat) as int)) % 16))
}

/// The hyphenated text of a uuid: 8-4-4-4-12 lowercase hex digits.
pub open spec fn uuid_text(u: u128) -> Seq<char> {
    let h = uuid_hex(u);
    h.subrange(0, 8) + seq!['-'] + h.subrange(8, 12) + seq!['-'] + h.subrange(12, 16) + seq![
        '-',
    ] + h.subrange(16, 20) + seq!['-'] + h.subrange(20, 32)
}

/// The hyphenated lowercase text of a uuid (`Display` of `uuid::Uuid`).
#[verifier::external_body]
pub fn uuid_chars(u: u128) -> (r: Vec<char>)
    ensures
        r@ == uuid_text(u),
{
    uuid::Uuid::from_u128(u).to_string().chars().collect()
}

/// The uuid that `uuid::Uuid::parse_str` reads from a text, if any.
pub uninterp spec fn uuid_parse_result(s: Seq<char>) -> Option<u128>;

/// Reads a uuid from its text (`uuid::Uuid::parse_str`).
#[verifier::external_body]
fn parse_uuid(s: &str) -> (r: Option<u128>)
    ensures
        r == uuid_parse_result(s@),
{
    match uuid::Uuid::parse_str(s) {
        Ok(u) => Some(u.as_u128()),
        Err(_) => None,
    }
}

/// An optional uuid form field: blank means none, anything else must read
/// as a uuid.
pub open spec fn optional_uuid(value: Seq<char>) -> Result<Option<u128>, SupportError> {
    if trim(value).len() == 0 {
        Ok(None)
    } else {
        optional_uuid_from(uuid_parse_result(trim(value)))
    }
}

/// The field's uuid given what the parser read from the trimmed text.
pub open spec fn optional_uuid_from(parsed: Option<u128>) -> Result<Option<u128>, SupportError> {
    match parsed {
        Some(u) => Ok(Some(u)),
        None => Err(SupportError::InvalidUuid),
    }
}

/// The outcome of a non-blank uuid field, given what the parser read.
pub fn uuid_field_value(parsed: Option<u128>) -> (r: Result<Option<u128>, SupportError>)
    ensures
        r == optional_uuid_from(parsed),
{
    match parsed {
        Some(u) => Ok(Some(u)),
        None => Err(SupportError::InvalidUuid),
    }
}

/// An optional uuid read from a form field.
pub fn parse_optional_uuid(value: &str) -> (r: Result<Option<u128>, SupportError>)
    ensures
        r == optional_uuid(value@),
{
    let v = chars_of(value);
    let t = trim_chars(&v);
    if t.len() == 0 {
        return Ok(None);
    }
    let ts = string_of(&t);
    uuid_field_value(parse_uuid(ts.as_str()))
}

} // verus!
