//! Readings of the wall clock. What the clock reads is not specified: it depends on
//! the machine and the moment of the call.

use vstd::prelude::*;
use std::time::{Duration, SystemTime, SystemTimeError, UNIX_EPOCH};

verus! {

#[verifier::external_type_specification]
#[verifier::external_body]
pub struct ExSystemTime(SystemTime);

#[verifier::external_type_specification]
#[verifier::external_body]
pub struct ExSystemTimeError(SystemTimeError);

/// The current wall-clock time (`SystemTime::now`); nothing is stated of its value.
#[verifier::external_body]
fn system_now() -> SystemTime {
    SystemTime::now()
}

/// Time elapsed from the Unix epoch to `t` (`SystemTime::duration_since(UNIX_EPOCH)`);
/// nothing is stated of its value, which depends on the clock reading `t`.
#[verifier::external_body]
fn since_unix_epoch(t: &SystemTime) -> Result<Duration, SystemTimeError> {
    t.duration_since(UNIX_EPOCH)
}

/// Whole nanoseconds in `d` (`Duration::as_nanos`); nothing is stated of its value.
#[verifier::external_body]
fn duration_as_nanos(d: &Duration) -> u128 {
    d.as_nanos()
}

/// Whole microseconds in `d` (`Duration::as_micros`); nothing is stated of its value.
#[verifier::external_body]
fn duration_as_micros(d: &Duration) -> u128 {
    d.as_micros()
}

/// A reading of time since the Unix epoch as a `u64`: the reading truncated to its low
/// 64 bits, or 0 when there is none (the clock read before the epoch).
pub fn epoch_reading_to_u64(reading: Option<u128>) -> (r: u64)
    ensures
        r == match reading {
            Some(n) => (n % 18446744073709551616) as u64,
            None => 0,
        },
{
    match reading {
        Some(n) => (n % 18446744073709551616u128) as u64,
        None => 0,
    }
}

/// Nanoseconds since the Unix epoch, truncated to 64 bits; 0 when the clock reads
/// before the epoch.
pub fn unix_time_nanos() -> u64 {
    let reading = match since_unix_epoch(&system_now()) {
        Ok(d) => Some(duration_as_nanos(&d)),
        Err(_) => None,
    };
    epoch_reading_to_u64(reading)
}

/// Microseconds since the Unix epoch, truncated to 64 bits; 0 when the clock reads
/// before the epoch.
pub fn unix_time_micros() -> u64 {
    let reading = match since_unix_epoch(&system_now()) {
        Ok(d) => Some(duration_as_micros(&d)),
        Err(_) => None,
    };
    epoch_reading_to_u64(reading)
}

} // verus!
