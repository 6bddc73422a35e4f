//! The wall clock.

use std::time::SystemTime;
use vstd::prelude::*;

verus! {

/// A point in time as the system clock tells it. Nothing is known of a value
/// but that it can be measured against the Unix epoch.
#[verifier::external_type_specification]
#[verifier::external_body]
pub struct ExSystemTime(SystemTime);

/// Calls `std::time::SystemTime::now`. Nothing is claimed of the value: it
/// differs from call to call.
#[verifier::external_body]
fn now() -> (r: SystemTime) {
    SystemTime::now()
}

/// Calls `std::time::SystemTime::duration_since` against the Unix epoch and
/// gives the duration in nanoseconds, `None` where `time` lies before the
/// epoch. Nothing is claimed of the value.
#[verifier::external_body]
fn nanos_since_epoch(time: &SystemTime) -> (r: Option<u128>) {
    match time.duration_since(std::time::UNIX_EPOCH) {
        Ok(elapsed) => Some(elapsed.as_nanos()),
        Err(_) => None,
    }
}

/// The time of the call in nanoseconds since the Unix epoch, `None` where the
/// clock stands before the epoch.
pub(crate) fn unix_nanos() -> (r: Option<u128>) {
    let time = now();
    nanos_since_epoch(&time)
}

} // verus!
