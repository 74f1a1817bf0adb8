//! Points in time, as the pipeline stamps its events.

use vstd::prelude::*;
use std::time::{Duration, SystemTime, SystemTimeError};

verus! {

/// `std::time::SystemTime`, a reading of the system clock, carried as an
/// opaque value.
#[verifier::external_type_specification]
#[verifier::external_body]
pub struct ExSystemTime(std::time::SystemTime);

/// `std::time::SystemTimeError`, which says how far a time lies before
/// another, carried as an opaque value.
#[verifier::external_type_specification]
#[verifier::external_body]
pub struct ExSystemTimeError(std::time::SystemTimeError);

/// Calls `SystemTime::now`. Nothing is stated of the result: it is the time.
#[verifier::external_body]
fn system_now() -> (now: SystemTime)
{
    SystemTime::now()
}

/// Calls `SystemTime::duration_since(UNIX_EPOCH)`: the time since the epoch,
/// or an error when `t` lies before the epoch. Which of the two, and the
/// durations, depend on the opaque `t` and are not stated.
#[verifier::external_body]
fn since_unix_epoch(t: &SystemTime) -> (r: Result<Duration, SystemTimeError>)
{
    t.duration_since(std::time::UNIX_EPOCH)
}

/// Calls `SystemTimeError::duration`: how far the time lay before the epoch.
/// The duration is opaque and not stated.
#[verifier::external_body]
fn error_duration(e: &SystemTimeError) -> (d: Duration)
{
    e.duration()
}

/// Calls `Duration::as_secs`: the whole seconds of `d`. They are not stated,
/// as the duration is opaque.
#[verifier::external_body]
fn whole_seconds(d: &Duration) -> (secs: u64)
{
    d.as_secs()
}

/// Calls `Duration::subsec_nanos`: the nanoseconds of `d` past its whole
/// seconds, which the standard library documents as less than one billion.
#[verifier::external_body]
fn fraction_nanos(d: &Duration) -> (nanos: u32)
    ensures
        nanos < 1_000_000_000,
{
    d.subsec_nanos()
}

/// A point in UTC time: whole seconds since the Unix epoch (negative before
/// it) and the nanoseconds past that second. It holds what a
/// `chrono::DateTime<Utc>` holds.
#[derive(Debug, Clone, Copy, PartialEq, Eq)]
pub struct UtcTimestamp {
    pub seconds: i64,
    pub subsec_nanos: u32,
}

/// The number of nanoseconds in a second.
pub const NANOS_PER_SECOND: u32 = 1_000_000_000;

/// The time `t` in nanoseconds since the epoch.
pub open spec fn nanos_of(t: UtcTimestamp) -> int {
    t.seconds * 1_000_000_000 + t.subsec_nanos
}

/// The earliest time that a `UtcTimestamp` holds.
pub open spec fn earliest() -> UtcTimestamp {
    UtcTimestamp { seconds: i64::MIN, subsec_nanos: 0 }
}

/// The latest time that a `UtcTimestamp` holds.
pub open spec fn latest() -> UtcTimestamp {
    UtcTimestamp { seconds: i64::MAX, subsec_nanos: 999_999_999 }
}

/// The time `secs` seconds and `nanos` nanoseconds after the epoch, or
/// before it when `before`, in nanoseconds.
pub open spec fn offset_nanos(before: bool, secs: u64, nanos: u32) -> int {
    let total = secs * 1_000_000_000 + nanos;
    if before {
        -total
    } else {
        total
    }
}

/// The time that lies `secs` seconds and `nanos` nanoseconds after the epoch
/// (before it when `before`). A time beyond what 64-bit seconds hold is held
/// as the earliest or the latest time there is.
pub fn timestamp_at_offset(before: bool, secs: u64, nanos: u32) -> (t: UtcTimestamp)
    ensures
        t.subsec_nanos < NANOS_PER_SECOND,
        nanos_of(earliest()) <= offset_nanos(before, secs, nanos) <= nanos_of(latest()) ==> nanos_of(
            t,
        ) == offset_nanos(before, secs, nanos),
        offset_nanos(before, secs, nanos) < nanos_of(earliest()) ==> t == earliest(),
        offset_nanos(before, secs, nanos) > nanos_of(latest()) ==> t == latest(),
{
    let total: u128 = (secs as u128) * 1_000_000_000 + (nanos as u128);
    let whole: u128 = total / 1_000_000_000;
    let part: u128 = total % 1_000_000_000;
    if !before {
        if whole > 0x7FFF_FFFF_FFFF_FFFF {
            UtcTimestamp { seconds: i64::MAX, subsec_nanos: 999_999_999 }
        } else {
            UtcTimestamp { seconds: whole as i64, subsec_nanos: part as u32 }
        }
    } else if part == 0 {
        if whole >= 0x8000_0000_0000_0000 {
            UtcTimestamp { seconds: i64::MIN, subsec_nanos: 0 }
        } else {
            UtcTimestamp { seconds: -(whole as i64), subsec_nanos: 0 }
        }
    } else if whole >= 0x8000_0000_0000_0000 {
        UtcTimestamp { seconds: i64::MIN, subsec_nanos: 0 }
    } else {
        UtcTimestamp {
            seconds: -(whole as i64) - 1,
            subsec_nanos: (1_000_000_000 - part) as u32,
        }
    }
}

/// The current time, read from the system clock; a clock that reads before
/// the epoch gives a time before the epoch. Nothing is stated of which time
/// it is.
pub fn utc_now() -> (now: UtcTimestamp)
    ensures
        now.subsec_nanos < NANOS_PER_SECOND,
{
    let reading = system_now();
    match since_unix_epoch(&reading) {
        Ok(after) => timestamp_at_offset(false, whole_seconds(&after), fraction_nanos(&after)),
        Err(e) => {
            let before = error_duration(&e);
            timestamp_at_offset(true, whole_seconds(&before), fraction_nanos(&before))
        },
    }
}

} // verus!
