//! The wall clock, read in whole seconds since the Unix epoch.

use std::time::{Duration, SystemTime, UNIX_EPOCH};
use vstd::prelude::*;

verus! {

/// `std::time::SystemTime`, a reading of the system clock. It is carried
/// from the clock to the measurement and never looked into.
#[verifier::external_type_specification]
#[verifier::external_body]
pub struct ExSystemTime(SystemTime);

/// `SystemTime::now` reads the system clock. Nothing is known of the
/// reading.
pub assume_specification[ SystemTime::now ]() -> (now: SystemTime);

/// `Duration::as_secs` gives the whole seconds of a duration. Nothing is
/// known of a duration, so nothing is said of them.
pub assume_specification[ Duration::as_secs ](elapsed: &Duration) -> (secs: u64);

/// Calls `SystemTime::duration_since` with the Unix epoch: the time from the
/// epoch to `time`, or `None` where `time` lies before it.
#[verifier::external_body]
fn since_epoch(time: &SystemTime) -> (elapsed: Option<Duration>) {
    match time.duration_since(UNIX_EPOCH) {
        Ok(elapsed) => Some(elapsed),
        Err(_) => None,
    }
}

/// The present time in whole seconds since the Unix epoch. A clock that
/// reads earlier than the epoch counts as the epoch itself.
pub(crate) fn unix_seconds() -> (secs: u64) {
    let now = SystemTime::now();
    match since_epoch(&now) {
        Some(elapsed) => elapsed.as_secs(),
        None => 0,
    }
}

} // verus!
