//! Instants, as microseconds since the Unix epoch, from chrono.
use vstd::prelude::*;

verus! {

/// The instant an RFC 3339 timestamp names, if it is one.
pub uninterp spec fn rfc3339_micros(s: Seq<char>) -> Option<i64>;

/// Relies on chrono's `DateTime::parse_from_rfc3339`, which accepts exactly the
/// RFC 3339 date-and-time strings, read as microseconds since the epoch by
/// `timestamp_micros`.
#[verifier::external_body]
pub(crate) fn parse_rfc3339_micros(s: &str) -> (r: Option<i64>)
    ensures
        r == rfc3339_micros(s@),
{
    chrono::DateTime::parse_from_rfc3339(s).ok().map(|d| d.timestamp_micros())
}

/// Relies on chrono's `Utc::now`, read as microseconds since the epoch by
/// `timestamp_micros`. Nothing is known of the value.
#[verifier::external_body]
pub(crate) fn now_micros() -> (r: i64) {
    chrono::Utc::now().timestamp_micros()
}

/// The instant an RFC 3339 timestamp names, as microseconds since the epoch.
pub fn timestamp_from_rfc3339(s: &str) -> (r: Option<i64>)
    ensures
        r == rfc3339_micros(s@),
{
    parse_rfc3339_micros(s)
}

} // verus!
