//! The two points where the library touches the outside world: reading the
//! wall clock and parsing an RFC 3339 date-and-time string. Both go through
//! chrono; everything downstream works on plain Unix timestamps in seconds.

use vstd::prelude::*;

verus! {

/// The Unix timestamp, in whole non-leap seconds, that an RFC 3339
/// date-and-time string denotes, or `None` where the string is not a valid
/// RFC 3339 date-and-time value. The timestamp is a function of the
/// characters of the string alone.
pub uninterp spec fn rfc3339_unix_seconds(s: Seq<char>) -> Option<i64>;

/// Relies on chrono::DateTime::parse_from_rfc3339, which parses every valid
/// RFC 3339 date-and-time string and rejects the rest, and on
/// chrono::DateTime::timestamp, which counts the non-leap seconds since the
/// Unix epoch; both depend on the characters of the string alone.
#[verifier::external_body]
pub(crate) fn parse_rfc3339_seconds(s: &str) -> (r: Option<i64>)
    ensures
        r == rfc3339_unix_seconds(s@),
{
    match chrono::DateTime::parse_from_rfc3339(s) {
        Ok(instant) => Some(instant.to_utc().timestamp()),
        Err(_) => None,
    }
}

/// Relies on chrono::Local::now for the current wall-clock instant and on
/// chrono::DateTime::to_utc and chrono::DateTime::timestamp to read it as
/// non-leap seconds since the Unix epoch. The clock decides the value, so
/// nothing is promised of it.
#[verifier::external_body]
pub(crate) fn now_unix_seconds() -> i64 {
    chrono::Local::now().to_utc().timestamp()
}

} // verus!
