//! The wall clock, read as nanoseconds since the Unix epoch.

use vstd::prelude::*;
use std::time::Duration;
use std::time::SystemTime;
use std::time::UNIX_EPOCH;

verus! {

/// `std::time::SystemTime`, a reading of the system clock. Nothing of it is
/// visible here.
#[verifier::external_type_specification]
#[verifier::external_body]
pub struct ExSystemTime(SystemTime);

/// `SystemTime::now`: the instant the system clock shows. Nothing is claimed
/// of it: two readings need not even be in order.
#[verifier::external_body]
fn system_time_now() -> SystemTime {
    SystemTime::now()
}

/// `SystemTime::duration_since` against `UNIX_EPOCH`: the time from the
/// epoch to `t`, or nothing where `t` lies before the epoch. Nothing is
/// claimed of the duration.
#[verifier::external_body]
fn since_unix_epoch(t: &SystemTime) -> Option<Duration> {
    t.duration_since(UNIX_EPOCH).ok()
}

/// `Duration::as_nanos`: the length of `d` in nanoseconds. The duration is
/// opaque here, so nothing is claimed of the number.
#[verifier::external_body]
fn duration_as_nanos(d: &Duration) -> u128 {
    d.as_nanos()
}

/// What a count of nanoseconds is as an instant: itself, or the last
/// instant a `u64` can hold where it lies beyond that.
pub open spec fn saturated(nanos: u128) -> u64 {
    if nanos > u64::MAX {
        u64::MAX
    } else {
        nanos as u64
    }
}

/// Narrows a count of nanoseconds to an instant, stopping at the last one.
pub fn saturate(nanos: u128) -> (t: u64)
    ensures
        t == saturated(nanos),
{
    if nanos > u64::MAX as u128 {
        u64::MAX
    } else {
        nanos as u64
    }
}

/// The instant a reading of the clock stands for: its distance from the
/// epoch, and the epoch itself for a reading that lies before it.
pub open spec fn instant_of(reading: Option<u128>) -> u64 {
    match reading {
        Some(nanos) => saturated(nanos),
        None => 0,
    }
}

/// Turns a reading of the clock into an instant.
pub fn instant(reading: Option<u128>) -> (t: u64)
    ensures
        t == instant_of(reading),
{
    match reading {
        Some(nanos) => saturate(nanos),
        None => 0,
    }
}

/// Reads the wall clock. The result is whatever the system says: callers
/// must be ready for any instant, also one before an earlier reading.
pub fn now() -> u64 {
    let t = system_time_now();
    match since_unix_epoch(&t) {
        Some(d) => instant(Some(duration_as_nanos(&d))),
        None => instant(None),
    }
}

} // verus!
