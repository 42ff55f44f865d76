//! Trusted validity checks on the textual value spaces of outside crates:
//! arbitrary-precision decimals, UUIDs and RFC3339 timestamps.  The crate
//! carries such values as plain strings and uses these checks where the
//! wire schema demands a well-formed value.

use vstd::prelude::*;

verus! {

/// Whether `bigdecimal` accepts `s` as a decimal number.
pub uninterp spec fn decimal_parses(s: Seq<char>) -> bool;

/// Relies on `bigdecimal::BigDecimal::from_str`: whether it accepts `s`
/// depends on the characters of `s` alone.
#[verifier::external_body]
pub fn decimal_ok(s: &str) -> (r: bool)
    ensures
        r == decimal_parses(s@),
{
    <bigdecimal::BigDecimal as core::str::FromStr>::from_str(s).is_ok()
}

/// Whether `uuid` accepts `s` as a UUID.
pub uninterp spec fn uuid_parses(s: Seq<char>) -> bool;

/// Relies on `uuid::Uuid::parse_str`: whether it accepts `s` depends on
/// the characters of `s` alone.
#[verifier::external_body]
pub fn uuid_ok(s: &str) -> (r: bool)
    ensures
        r == uuid_parses(s@),
{
    uuid::Uuid::parse_str(s).is_ok()
}

/// Relies on `uuid::Uuid::new_v4` and its hyphenated rendering: a fresh
/// random version-4 UUID, 36 characters of text that `uuid` itself
/// accepts back.  Nothing more is promised of a random value.
#[verifier::external_body]
pub fn new_uuid_v4_string() -> (r: String)
    ensures
        r@.len() == 36,
        uuid_parses(r@),
{
    uuid::Uuid::new_v4().to_string()
}

/// Whether `chrono` accepts `s` as an RFC3339 timestamp.
pub uninterp spec fn rfc3339_parses(s: Seq<char>) -> bool;

/// Relies on `chrono::DateTime::parse_from_rfc3339`: whether it accepts
/// `s` depends on the characters of `s` alone.
#[verifier::external_body]
pub fn datetime_ok(s: &str) -> (r: bool)
    ensures
        r == rfc3339_parses(s@),
{
    chrono::DateTime::parse_from_rfc3339(s).is_ok()
}

} // verus!
