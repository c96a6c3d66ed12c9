//! The wall clock.

use vstd::prelude::*;

verus! {

/// The current time as seconds since the Unix epoch.
///
/// Trusted: `time::OffsetDateTime::now_utc().unix_timestamp()`. The result depends on the
/// clock, so nothing is claimed of its value beyond the range the `time` crate can represent
/// (years within ±999,999, which bounds the timestamp well inside ±4·10¹³ seconds).
#[verifier::external_body]
pub fn unix_now() -> (t: i64)
    ensures
        -40_000_000_000_000 < t < 40_000_000_000_000,
{
    time::OffsetDateTime::now_utc().unix_timestamp()
}

} // verus!
