//! The system clock, read in whole milliseconds.

use std::time::{Duration, SystemTime, SystemTimeError};
use vstd::prelude::*;

verus! {

/// `std::time::SystemTime`: a reading of the system clock. Nothing inside it is visible here.
#[verifier::external_type_specification]
#[verifier::external_body]
pub struct ExSystemTime(SystemTime);

/// `std::time::SystemTimeError`: what `SystemTime::duration_since` returns for a time that
/// lies before the one it is measured from.
#[verifier::external_type_specification]
#[verifier::external_body]
pub struct ExSystemTimeError(SystemTimeError);

/// `SystemTime::now` reads the system clock. The reading depends on when the call is made,
/// so nothing is claimed of it.
pub assume_specification[ SystemTime::now ]() -> (reading: SystemTime)
;

/// Measures a reading from the Unix epoch with `SystemTime::duration_since`. It returns an
/// error for a reading that lies before the epoch. Nothing is claimed of the length.
#[verifier::external_body]
fn since_unix_epoch(reading: &SystemTime) -> (length: Result<Duration, SystemTimeError>) {
    reading.duration_since(std::time::UNIX_EPOCH)
}

/// `Duration::as_millis` gives the whole milliseconds of a length of time. A `Duration` is
/// opaque here, so nothing is claimed of the number.
pub assume_specification[ Duration::as_millis ](length: &Duration) -> (millis: u128)
;

/// Reads the system clock and returns the milliseconds since the Unix epoch. A clock set
/// before the epoch reads as 0, and one too far ahead for a `u64` as `u64::MAX`.
///
/// Which number comes depends on the moment of the call: callers are verified for every
/// value of it.
pub fn now_millis() -> u64 {
    let reading = SystemTime::now();
    let measured = match since_unix_epoch(&reading) {
        Ok(length) => Some(length.as_millis()),
        Err(_) => None,
    };
    millis_since_epoch(measured)
}

/// The moment, in milliseconds since the Unix epoch, that a measurement of the clock
/// stands for. `measured` is the length of time from the epoch to the reading, in whole
/// milliseconds, and `None` for a reading that lies before the epoch. Such a reading
/// counts as the epoch itself, and a length beyond the range of a `u64` as `u64::MAX`.
pub open spec fn spec_millis_since_epoch(measured: Option<nat>) -> nat {
    match measured {
        None => 0,
        Some(millis) => if millis > u64::MAX {
            u64::MAX as nat
        } else {
            millis
        },
    }
}

/// Returns the moment, in milliseconds since the Unix epoch, that a measurement of the
/// clock stands for: the measured length where it fits a `u64`, `u64::MAX` where it does
/// not, and 0 where the reading lies before the epoch and no length was measured.
pub fn millis_since_epoch(measured: Option<u128>) -> (moment: u64)
    ensures
        moment == spec_millis_since_epoch(
            match measured {
                Some(millis) => Some(millis as nat),
                None => None,
            },
        ),
{
    match measured {
        None => 0,
        Some(millis) => {
            if millis > u64::MAX as u128 {
                u64::MAX
            } else {
                millis as u64
            }
        },
    }
}

} // verus!
