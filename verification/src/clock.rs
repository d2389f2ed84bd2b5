//! The time stamp of a record: milliseconds since the Unix epoch.

use vstd::prelude::*;

verus! {

/// `std::time::SystemTime`: a reading of the system clock.
#[verifier::external_type_specification]
#[verifier::external_body]
pub struct ExSystemTime(std::time::SystemTime);

/// `SystemTime::now`: the system clock's present reading. Nothing is claimed
/// of it.
#[verifier::external_body]
fn system_time() -> std::time::SystemTime {
    std::time::SystemTime::now()
}

/// `SystemTime::duration_since` with the Unix epoch: the time that has passed
/// since the epoch, or `None` where the reading lies before it. Nothing is
/// claimed of it.
#[verifier::external_body]
fn since_epoch(reading: &std::time::SystemTime) -> Option<std::time::Duration> {
    reading.duration_since(std::time::UNIX_EPOCH).ok()
}

/// `Duration::as_millis`: the whole milliseconds of a duration. Nothing is
/// claimed of it.
#[verifier::external_body]
fn whole_millis(elapsed: &std::time::Duration) -> u128 {
    elapsed.as_millis()
}

/// The time stamp for a count of milliseconds, where it fits.
pub open spec fn timestamp_of(millis: u128) -> Option<i64> {
    if millis <= i64::MAX as u128 {
        Some(millis as i64)
    } else {
        None
    }
}

/// The time stamp for a count of milliseconds since the epoch, or `None`
/// where the count is beyond what a time stamp holds.
pub fn timestamp_from_millis(millis: u128) -> (timestamp: Option<i64>)
    ensures
        timestamp == timestamp_of(millis),
{
    if millis <= i64::MAX as u128 {
        Some(millis as i64)
    } else {
        None
    }
}

/// The present time as a time stamp. `None` where the clock reads a time
/// before the epoch or beyond what a time stamp holds.
pub fn now() -> (timestamp: Option<i64>)
    ensures
        timestamp matches Some(millis) ==> millis >= 0,
{
    let reading = system_time();
    match since_epoch(&reading) {
        Some(elapsed) => timestamp_from_millis(whole_millis(&elapsed)),
        None => None,
    }
}

} // verus!
