//! The wall clock, read as whole milliseconds since an epoch.

use std::time::SystemTime;
use vstd::prelude::*;

verus! {

/// `std::time::SystemTime`, a point in time as the system clock gives it.
/// Verified code carries such a value along and knows nothing of it.
#[verifier::external_type_specification]
#[verifier::external_body]
pub struct ExSystemTime(std::time::SystemTime);

/// `std::time::SystemTimeError`, with which `SystemTime::duration_since`
/// answers when the second point lies after the first.
#[verifier::external_type_specification]
#[verifier::external_body]
pub struct ExSystemTimeError(std::time::SystemTimeError);

/// `SystemTime::now` reads the system clock. It returns; nothing is claimed of
/// the moment it returns, and two readings need not agree or be in order.
pub assume_specification[ std::time::SystemTime::now ]() -> (current: std::time::SystemTime)
;

/// `SystemTime::duration_since` measures the time from `earlier` to `later`.
/// It returns; nothing is claimed of the span, nor of when it is an error.
pub assume_specification[ std::time::SystemTime::duration_since ](
    later: &std::time::SystemTime,
    earlier: std::time::SystemTime,
) -> (elapsed: Result<std::time::Duration, std::time::SystemTimeError>)
;

/// `Duration::as_millis` counts the whole milliseconds in a span. It
/// returns; nothing is claimed of the count.
pub assume_specification[ std::time::Duration::as_millis ](span: &std::time::Duration) -> (millis: u128)
;

/// A count of milliseconds brought into 64 bits: 0 where there is none,
/// which stands for a moment before the epoch, and the largest number of
/// 64 bits where the count is larger still.
pub open spec fn saturated(elapsed: Option<u128>) -> u64 {
    match elapsed {
        Some(millis) => if millis > u64::MAX {
            u64::MAX
        } else {
            millis as u64
        },
        None => 0,
    }
}

/// Brings the milliseconds that have passed since an epoch, or `None` where
/// the epoch is still to come, into the 64 bits of a clock reading.
pub fn saturate(elapsed: Option<u128>) -> (millis: u64)
    ensures
        millis == saturated(elapsed),
{
    match elapsed {
        Some(millis) => if millis > 0xFFFF_FFFF_FFFF_FFFF {
            u64::MAX
        } else {
            millis as u64
        },
        None => 0,
    }
}

/// The whole milliseconds that have passed since `epoch`, as the system clock
/// has it at the moment of the call. The count saturates as `saturate` has
/// it: it is 0 while the clock reads earlier than the epoch, and `u64::MAX`
/// once it no longer fits.
///
/// Nothing is promised of the reading. The clock is not in the program's
/// hands: two readings may be equal, and a clock that is set back gives a
/// smaller reading after a larger one.
pub fn now(epoch: SystemTime) -> (millis: u64) {
    let current = SystemTime::now();
    let elapsed: Option<u128> = match current.duration_since(epoch) {
        Ok(span) => Some(span.as_millis()),
        Err(_) => None,
    };
    saturate(elapsed)
}

} // verus!
