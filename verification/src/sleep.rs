//! The report the page shows: the phrase for the time elapsed since the
//! fixed instant Bae last overslept, measured against the wall clock.

use vstd::prelude::*;
use crate::clock::{now_unix_seconds, parse_rfc3339_seconds, rfc3339_unix_seconds};
use crate::phrase::{elapsed_clamped, elapsed_phrase, format_elapsed};

verus! {

/// The RFC 3339 text of the fixed epoch.
pub open spec fn epoch_text() -> Seq<char> {
    "2024-11-17T01:22:00Z"@
}

/// The fixed epoch as a string slice.
pub fn epoch_rfc3339() -> (r: &'static str)
    ensures
        r@ == epoch_text(),
{
    "2024-11-17T01:22:00Z"
}

/// The fixed epoch as a Unix timestamp in seconds, or `None` where its
/// hardcoded text is not a valid RFC 3339 value.
pub fn epoch_unix_seconds() -> (r: Option<i64>)
    ensures
        r == rfc3339_unix_seconds(epoch_text()),
{
    parse_rfc3339_seconds(epoch_rfc3339())
}

/// The phrase for the time elapsed from `last_sleep` to the wall clock's
/// current instant: whatever instant the clock reports, the result is the
/// elapsed-time phrase for that pair.
pub fn get_sleep(last_sleep: i64) -> (r: String)
    ensures
        exists|n: i64| r@ == elapsed_phrase(elapsed_clamped(last_sleep as int, n as int)),
{
    let now = now_unix_seconds();
    let r = format_elapsed(last_sleep, now);
    proof {
        assert(r@ == elapsed_phrase(elapsed_clamped(last_sleep as int, now as int)));
    }
    r
}

/// The phrase for the time elapsed since the fixed epoch, or `None` where
/// the hardcoded epoch text fails to parse (a fatal configuration error the
/// caller surfaces by aborting initialization).
pub fn get_last_sleep() -> (r: Option<String>)
    ensures
        r is Some <==> rfc3339_unix_seconds(epoch_text()) is Some,
        r is Some ==> exists|n: i64|
            r.unwrap()@ == elapsed_phrase(
                elapsed_clamped(rfc3339_unix_seconds(epoch_text()).unwrap() as int, n as int),
            ),
{
    match epoch_unix_seconds() {
        Some(last_sleep) => Some(get_sleep(last_sleep)),
        None => None,
    }
}

} // verus!
