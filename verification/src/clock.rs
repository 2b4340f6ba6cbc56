//! The store clock: commit times are nanoseconds since the Unix epoch, read
//! from the system clock and capped at the largest `u64`.

use std::time::{Duration, SystemTime};

use vstd::prelude::*;

verus! {

#[verifier::external_type_specification]
#[verifier::external_body]
pub struct ExSystemTime(SystemTime);

/// The Unix epoch.
///
/// Trusted: returns `std::time::UNIX_EPOCH`; nothing is claimed of the value.
#[verifier::external_body]
fn unix_epoch() -> SystemTime {
    std::time::UNIX_EPOCH
}

/// The current system time.
///
/// Trusted: calls `SystemTime::now`; the time depends on the machine, so
/// nothing is claimed of it.
#[verifier::external_body]
fn system_now() -> SystemTime {
    SystemTime::now()
}

/// The time from `earlier` to `later`, or `None` when `later` is before it.
///
/// Trusted: calls `SystemTime::duration_since`, which std documents as failing
/// exactly when `earlier` is later than `later`; the comparison is not
/// visible here, so only the shape of the result is relied on.
#[verifier::external_body]
fn duration_since(later: &SystemTime, earlier: &SystemTime) -> Option<Duration> {
    later.duration_since(*earlier).ok()
}

/// The whole nanoseconds in a duration.
///
/// Trusted: calls `Duration::as_nanos`; nothing is claimed of the value.
#[verifier::external_body]
fn duration_nanos(duration: &Duration) -> u128 {
    duration.as_nanos()
}

/// A nanosecond count as a commit time: counts past the largest `u64` are
/// capped.
pub fn nanos_to_timestamp(nanos: u128) -> (timestamp: u64)
    ensures
        timestamp == if nanos > u64::MAX as u128 { u64::MAX as int } else { nanos as int },
{
    if nanos > u64::MAX as u128 {
        u64::MAX
    } else {
        nanos as u64
    }
}

/// The commit time that an elapsed time since the epoch gives: its
/// nanoseconds, capped; none elapsed (the clock reads before the epoch) is an
/// error.
pub fn timestamp_from_elapsed(elapsed_nanos: Option<u128>) -> (timestamp: Result<u64, ()>)
    ensures
        match elapsed_nanos {
            Some(nanos) => timestamp == Ok::<u64, ()>(
                if nanos > u64::MAX as u128 { u64::MAX } else { nanos as u64 },
            ),
            None => timestamp == Err::<u64, ()>(()),
        },
{
    match elapsed_nanos {
        Some(nanos) => Ok(nanos_to_timestamp(nanos)),
        None => Err(()),
    }
}

/// The clock that stamps commits.  It always counts from the Unix epoch, so it
/// holds nothing of its own.
pub struct StoreClock {}

impl StoreClock {
    pub fn system() -> (clock: Self) {
        StoreClock {}
    }

    /// The current commit time: nanoseconds since the Unix epoch, or `Err`
    /// when the system clock reads before the epoch.
    pub fn timestamp(&self) -> (timestamp: Result<u64, ()>) {
        let now = system_now();
        let epoch = unix_epoch();
        let elapsed = match duration_since(&now, &epoch) {
            Some(elapsed) => Some(duration_nanos(&elapsed)),
            None => None,
        };
        timestamp_from_elapsed(elapsed)
    }
}

} // verus!
