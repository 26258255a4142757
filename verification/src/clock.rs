//! The wall clock, read in milliseconds since the Unix epoch.

use vstd::prelude::*;

use std::time::{Duration, SystemTime, SystemTimeError};

verus! {

/// A time of day: milliseconds since the Unix epoch.
pub type Timestamp = u64;

/// `std::time::SystemTime`: a reading of the system clock.
#[verifier::external_type_specification]
#[verifier::external_body]
pub struct ExSystemTime(std::time::SystemTime);

/// `std::time::SystemTimeError`: what `SystemTime::duration_since` fails
/// with.
#[verifier::external_type_specification]
#[verifier::external_body]
pub struct ExSystemTimeError(std::time::SystemTimeError);

/// Why the clock could not be read.
#[derive(Clone, Copy, Debug, PartialEq, Eq, Structural)]
pub enum ClockError {
    /// The system clock is set to a time before the Unix epoch.
    BeforeUnixEpoch,
    /// The time is so far past the Unix epoch that its milliseconds do not
    /// fit in 64 bits.
    OutOfRange,
}

/// `SystemTime::now`: the system clock as it reads at the call. Nothing is
/// claimed of the reading.
#[verifier::external_body]
fn system_time_now() -> SystemTime {
    SystemTime::now()
}

/// `SystemTime::duration_since` against `UNIX_EPOCH`: how far `time` is past
/// the epoch, or an error if it is before the epoch. Nothing is claimed of
/// which it is.
#[verifier::external_body]
fn since_unix_epoch(time: &SystemTime) -> Result<Duration, SystemTimeError> {
    time.duration_since(std::time::UNIX_EPOCH)
}

/// `Duration::as_millis`: the whole milliseconds in `elapsed`. Nothing is
/// claimed of their number.
#[verifier::external_body]
fn whole_millis(elapsed: &Duration) -> u128 {
    elapsed.as_millis()
}

/// Reads the wall clock once.
///
/// What the clock reads is not known before it is read, so nothing is
/// promised of it here. [`timestamp_from`] says what becomes of each
/// reading: where there is no timestamp for it, no time is made up.
pub fn now() -> Result<Timestamp, ClockError> {
    let time = system_time_now();
    let elapsed = match since_unix_epoch(&time) {
        Ok(elapsed) => Some(whole_millis(&elapsed)),
        Err(_) => None,
    };
    timestamp_from(elapsed)
}

/// What becomes of a reading of the clock. The reading is the whole
/// milliseconds by which the clock is past the Unix epoch, or `None` where
/// the clock is before the epoch.
pub open spec fn timestamp_of(elapsed: Option<u128>) -> Result<Timestamp, ClockError> {
    match elapsed {
        None => Err(ClockError::BeforeUnixEpoch),
        Some(millis) => if millis <= u64::MAX {
            Ok(millis as u64)
        } else {
            Err(ClockError::OutOfRange)
        },
    }
}

/// The timestamp for a reading of the clock: its milliseconds where they
/// fit in 64 bits, and else the error that says why there is none.
pub fn timestamp_from(elapsed: Option<u128>) -> (r: Result<Timestamp, ClockError>)
    ensures
        r == timestamp_of(elapsed),
{
    match elapsed {
        None => Err(ClockError::BeforeUnixEpoch),
        Some(millis) => {
            if millis <= 0xffff_ffff_ffff_ffff {
                Ok(millis as u64)
            } else {
                Err(ClockError::OutOfRange)
            }
        },
    }
}

} // verus!
