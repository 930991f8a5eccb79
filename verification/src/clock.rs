//! The system clock.

use std::time::{SystemTime, UNIX_EPOCH};
use vstd::prelude::*;

verus! {

/// Reads `SystemTime::now` as whole milliseconds since the Unix epoch.
///
/// Trusted, and nothing is claimed of the value: two calls may differ. A clock
/// set before the epoch reads as zero.
#[verifier::external_body]
pub(crate) fn unix_millis() -> (millis: u128) {
    match SystemTime::now().duration_since(UNIX_EPOCH) {
        Ok(elapsed) => elapsed.as_millis(),
        Err(_) => 0,
    }
}

/// The whole seconds in a number of milliseconds, as far as they can be counted.
pub open spec fn whole_seconds(millis: u128) -> u64 {
    if millis / 1000 > u64::MAX {
        u64::MAX
    } else {
        (millis / 1000) as u64
    }
}

/// The whole seconds in a number of milliseconds.
pub fn seconds_of(millis: u128) -> (seconds: u64)
    ensures
        seconds == whole_seconds(millis),
{
    let seconds: u128 = millis / 1000;
    if seconds > u64::MAX as u128 {
        u64::MAX
    } else {
        seconds as u64
    }
}

/// The clock in whole seconds since the Unix epoch.
pub(crate) fn unix_time() -> (seconds: u64) {
    seconds_of(unix_millis())
}

} // verus!
