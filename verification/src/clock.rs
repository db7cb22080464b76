//! The two clocks the monitor reads: a monotonic one for time spent on
//! battery, and the wall clock for the time a record was captured.
//!
//! Nothing is claimed about what a clock returns; callers hand the value to
//! functions that are proved for every value.

use vstd::prelude::*;

verus! {

/// `std::time::Instant`, a point on the monotonic clock. Opaque here.
#[verifier::external_type_specification]
#[verifier::external_body]
pub struct ExInstant(std::time::Instant);

/// `Instant::now` of std reads the monotonic clock. No claim is made about
/// the instant it returns.
pub assume_specification[ std::time::Instant::now ]() -> (now: std::time::Instant);

/// `Instant::elapsed` of std measures the time since `since`. No claim is
/// made about the duration it returns.
pub assume_specification[ std::time::Instant::elapsed ](since: &std::time::Instant) -> (elapsed:
    std::time::Duration);

/// `Duration::as_secs` of std gives the whole seconds of a duration. No
/// claim is made about the number it returns.
pub assume_specification[ std::time::Duration::as_secs ](duration: &std::time::Duration) -> (secs:
    u64);

/// Whole seconds elapsed since `since`, as measured now.
pub fn seconds_since(since: &std::time::Instant) -> u64 {
    since.elapsed().as_secs()
}

/// Reads the wall clock with `SystemTime::now` of std and has chrono turn it
/// into whole seconds since the Unix epoch, by chrono's
/// `From<SystemTime> for DateTime<Utc>` and `DateTime::timestamp`. A clock
/// set before the epoch gives a negative number; chrono gives up only on a
/// time beyond the years it can hold, some 262 000 either side of the epoch.
/// No claim is made about the number it returns.
#[verifier::external_body]
pub(crate) fn unix_timestamp() -> i64 {
    chrono::DateTime::<chrono::Utc>::from(std::time::SystemTime::now()).timestamp()
}

} // verus!
