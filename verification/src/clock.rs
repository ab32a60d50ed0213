//! The system clock as a source of initial sequence numbers.

use std::time::{Duration, SystemTime, SystemTimeError};
use vstd::prelude::*;

verus! {

/// `std::time::SystemTime`, a reading of the system clock. It is carried
/// through as it is: nothing is known of what it holds.
#[verifier::external_type_specification]
#[verifier::external_body]
pub struct ExSystemTime(SystemTime);

/// `std::time::SystemTimeError`, the error of a clock reading that lies
/// before the time it is measured from. Nothing is known of what it holds.
#[verifier::external_type_specification]
#[verifier::external_body]
pub struct ExSystemTimeError(SystemTimeError);

/// `std::time::SystemTime::now`: the current reading of the system clock.
///
/// Trusted, and nothing is claimed of the reading.
#[verifier::external_body]
fn system_now() -> SystemTime {
    SystemTime::now()
}

/// `std::time::SystemTime::duration_since` against the Unix epoch: the time
/// from the epoch to `now`, or an error if `now` lies before the epoch.
///
/// Trusted, and nothing is claimed of either outcome.
#[verifier::external_body]
fn since_unix_epoch(now: &SystemTime) -> Result<Duration, SystemTimeError> {
    now.duration_since(SystemTime::UNIX_EPOCH)
}

/// `std::time::Duration::as_secs`: the whole seconds in `elapsed`.
///
/// Trusted, and nothing is claimed of the count.
#[verifier::external_body]
fn whole_seconds(elapsed: &Duration) -> u64 {
    elapsed.as_secs()
}

/// The initial sequence number that belongs to a clock reading of `seconds`
/// whole seconds since the Unix epoch: its low 32 bits.
pub open spec fn sequence_number_at(seconds: u64) -> u32 {
    (seconds % 0x1_0000_0000) as u32
}

/// Computes the initial sequence number for a clock reading.
pub fn initial_sequence_number_at(seconds: u64) -> (iss: u32)
    ensures
        iss == sequence_number_at(seconds),
{
    (seconds % 0x1_0000_0000) as u32
}

/// Whole seconds on the system clock since the Unix epoch. A clock that is
/// set before the epoch reads as the epoch itself.
pub fn unix_seconds() -> u64 {
    let now = system_now();
    let elapsed = match since_unix_epoch(&now) {
        Ok(elapsed) => Some(whole_seconds(&elapsed)),
        Err(_) => None,
    };
    seconds_or_epoch(elapsed)
}

/// An initial sequence number taken from the system clock.
pub fn initial_sequence_number() -> u32 {
    initial_sequence_number_at(unix_seconds())
}

/// What a clock reading counts for: the whole seconds since the Unix epoch
/// where the clock gave them, and 0, the epoch itself, where the clock is set
/// before the epoch and gave none.
pub open spec fn seconds_counted(elapsed: Option<u64>) -> u64 {
    match elapsed {
        Some(seconds) => seconds,
        None => 0,
    }
}

/// Turns the outcome of a clock reading into seconds since the Unix epoch.
pub fn seconds_or_epoch(elapsed: Option<u64>) -> (seconds: u64)
    ensures
        seconds == seconds_counted(elapsed),
{
    match elapsed {
        Some(seconds) => seconds,
        None => 0,
    }
}

} // verus!
