//! Identifiers: the library keeps UUIDs as their 128-bit values.

use vstd::prelude::*;

verus! {

/// The lowercase hexadecimal digit of a value below sixteen.
pub open spec fn hex_digit(n: int) -> char {
    if n < 10 { ('0' as int + n) as char } else { ('a' as int + n - 10) as char }
}

/// Which of the 32 hexadecimal digits stands at position `i` of the text (the
/// hyphens stand at positions 8, 13, 18 and 23).
pub open spec fn digit_at(i: int) -> int {
    if i < 8 { i } else if i < 13 { i - 1 } else if i < 18 { i - 2 } else if i < 23 { i - 3 } else { i - 4 }
}

/// The text of a UUID in the hyphenated form: its 32 hexadecimal digits, most
/// significant first, in lowercase, grouped 8-4-4-4-12 by hyphens.
#[verifier::opaque]
pub open spec fn uuid_string(id: u128) -> Seq<char> {
    Seq::new(36, |i: int|
        if i == 8 || i == 13 || i == 18 || i == 23 {
            '-'
        } else {
            hex_digit(((id as int) / vstd::arithmetic::power2::pow2((4 * (31 - digit_at(i))) as nat) as int) % 16)
        })
}

/// Renders a UUID with `uuid::Uuid::from_u128` and `to_string`, whose `Display`
/// writes the hyphenated lowercase form (`uuid_string`); `uuid::Uuid::parse_str`
/// reads that text back as the same value.
#[verifier::external_body]
pub(crate) fn uuid_text(id: u128) -> (s: String)
    ensures
        s@ == uuid_string(id),
        parsed_uuid(s@) == Some(id),
{
    uuid::Uuid::from_u128(id).to_string()
}

/// The UUID that `uuid::Uuid::parse_str` reads from a text, if it reads one.
/// It is named here, not stated.
pub uninterp spec fn parsed_uuid(s: Seq<char>) -> Option<u128>;

/// Parses a UUID with `uuid::Uuid::parse_str`; a text that it refuses gives `None`.
/// The contract says only that the answer is `parsed_uuid` of the text.
#[verifier::external_body]
pub(crate) fn parse_uuid(s: &str) -> (id: Option<u128>)
    ensures
        id == parsed_uuid(s@),
{
    match uuid::Uuid::parse_str(s) {
        Ok(u) => Some(u.as_u128()),
        Err(_) => None,
    }
}

/// A fresh random (version 4) UUID from `uuid::Uuid::new_v4`: its value is random
/// but for the version digit, which is 4, and the two variant bits, which are 10.
#[verifier::external_body]
pub(crate) fn new_uuid() -> (id: u128)
    ensures
        (id >> 76u128) & 0xf == 4,
        (id >> 62u128) & 0x3 == 2,
{
    uuid::Uuid::new_v4().as_u128()
}

} // verus!
