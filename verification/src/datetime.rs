//! Timestamps, carried as whole seconds since the Unix epoch.
//!
//! The API takes RFC3339 text with whole seconds in query parameters and
//! Unix-second strings in candle ranges; both renderings come from the
//! one seconds value kept here.  The rendering itself is `chrono`'s.

use vstd::prelude::*;

verus! {

/// A point in time: whole seconds since the Unix epoch, in UTC.
#[derive(Debug, PartialEq, Eq, Structural, Clone, Copy)]
pub struct UtcTimestamp {
    pub secs: i64,
}

/// The RFC3339 rendering (whole seconds, `Z` suffix) of a Unix-seconds
/// value, as `chrono` writes it; the empty sequence for seconds outside
/// the years `chrono` can represent.
pub uninterp spec fn rfc3339_utc_of(secs: int) -> Seq<char>;

/// Relies on `chrono::DateTime::from_timestamp` and
/// `to_rfc3339_opts(SecondsFormat::Secs, true)`: the rendering depends on
/// the seconds value alone.  Out-of-range seconds render as the empty
/// string instead of failing.
#[verifier::external_body]
pub fn format_rfc3339_secs(secs: i64) -> (r: String)
    ensures
        r@ == rfc3339_utc_of(secs as int),
{
    match chrono::DateTime::from_timestamp(secs, 0) {
        Some(dt) => dt.to_rfc3339_opts(chrono::SecondsFormat::Secs, true),
        None => String::new(),
    }
}

impl UtcTimestamp {
    /// Renders this instant as RFC3339 text with whole seconds.
    pub fn to_rfc3339(&self) -> (r: String)
        ensures
            r@ == rfc3339_utc_of(self.secs as int),
    {
        format_rfc3339_secs(self.secs)
    }
}

} // verus!
