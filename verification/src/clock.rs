//! The wall clock, read as whole seconds since the Unix epoch.
use vstd::prelude::*;
use std::time::{Duration, SystemTime, SystemTimeError};

verus! {

/// The type of a point in wall-clock time.
#[verifier::external_type_specification]
#[verifier::external_body]
pub struct ExSystemTime(SystemTime);

/// The error of a wall-clock time that lies before another one.
#[verifier::external_type_specification]
#[verifier::external_body]
pub struct ExSystemTimeError(SystemTimeError);

/// Calls `SystemTime::now`. The result depends on the machine's clock, so
/// nothing is claimed of it.
#[verifier::external_body]
fn system_time_now() -> SystemTime {
    SystemTime::now()
}

/// Calls `SystemTime::duration_since` with the Unix epoch. It fails when the
/// time lies before the epoch; as the time comes from the clock, nothing is
/// claimed of the result.
#[verifier::external_body]
fn since_unix_epoch(t: &SystemTime) -> Result<Duration, SystemTimeError> {
    t.duration_since(std::time::UNIX_EPOCH)
}

/// Calls `Duration::as_secs`. The duration is opaque to the library, so
/// nothing is claimed of the whole seconds it holds.
#[verifier::external_body]
fn whole_seconds(d: &Duration) -> u64 {
    d.as_secs()
}

/// The timestamp for a clock reading given as its whole seconds since the
/// Unix epoch, or `None` for a reading before the epoch: those seconds, or 0.
pub fn timestamp_from_reading(seconds_since_epoch: Option<u64>) -> (r: u64)
    ensures
        r == match seconds_since_epoch {
            Some(seconds) => seconds,
            None => 0,
        },
{
    match seconds_since_epoch {
        Some(seconds) => seconds,
        None => 0,
    }
}

/// The current time in whole seconds since the Unix epoch, or 0 when the
/// clock reads a time before the epoch (see [`timestamp_from_reading`]).
pub fn unix_timestamp() -> u64 {
    let now = system_time_now();
    let reading = match since_unix_epoch(&now) {
        Ok(d) => Some(whole_seconds(&d)),
        Err(_) => None,
    };
    timestamp_from_reading(reading)
}

} // verus!
