//! Readings of the system clock, which seed dice rolls and new games.
use vstd::prelude::*;
use std::time::{Duration, SystemTime, SystemTimeError};

verus! {

#[verifier::external_type_specification]
#[verifier::external_body]
pub struct ExSystemTime(SystemTime);

#[verifier::external_type_specification]
#[verifier::external_body]
pub struct ExSystemTimeError(SystemTimeError);

/// std's `SystemTime::now`: what the clock reads, of which nothing is promised.
#[verifier::external_body]
fn system_now() -> (r: SystemTime)
{
    SystemTime::now()
}

/// std's `SystemTime::duration_since` the Unix epoch: the time since then, or an error when
/// the clock reads earlier; nothing is promised of which, as it depends on the clock.
#[verifier::external_body]
fn since_unix_epoch(t: &SystemTime) -> (r: Result<Duration, SystemTimeError>)
{
    t.duration_since(std::time::UNIX_EPOCH)
}

/// std's `Duration::subsec_nanos`: the fractional part of the duration in nanoseconds,
/// which std documents as less than one billion.
#[verifier::external_body]
fn duration_subsec_nanos(d: &Duration) -> (r: u32)
    ensures
        r < 1_000_000_000,
{
    d.subsec_nanos()
}

/// The nanoseconds within the current second of the system clock, zero when the clock
/// reads before the Unix epoch. Only the range is known: the value depends on the time.
pub(crate) fn clock_subsec_nanos() -> (r: u32)
    ensures
        r < 1_000_000_000,
{
    let now = system_now();
    match since_unix_epoch(&now) {
        Ok(d) => duration_subsec_nanos(&d),
        Err(_) => 0,
    }
}

/// std's `Duration::as_secs`: the whole seconds of the duration, of which nothing is stated
/// here, as the duration came from the clock.
#[verifier::external_body]
fn duration_secs(d: &Duration) -> (r: u64)
{
    d.as_secs()
}

/// std's `SystemTimeError::duration`: how far the clock reading lies before the Unix epoch,
/// of which nothing is stated here, as the reading came from the clock.
#[verifier::external_body]
fn error_duration(e: &SystemTimeError) -> (r: Duration)
{
    e.duration()
}

/// Whole seconds, rounded down, of a time `secs` seconds and `nanos` nanoseconds before the
/// Unix epoch, as a negative count (the smallest `i64` where it does not fit).
fn seconds_before_epoch(secs: u64, nanos: u32) -> (r: i64)
    ensures
        secs < 9_223_372_036_854_775_807u64 ==> r == (if nanos == 0 { -(secs as int) } else { -(secs as int) - 1 }),
        secs >= 9_223_372_036_854_775_807u64 ==> r == i64::MIN,
{
    if secs < 9_223_372_036_854_775_807u64 {
        let s = secs as i64;
        if nanos == 0 { -s } else { -s - 1 }
    } else {
        i64::MIN
    }
}

/// The current time in whole seconds since the Unix epoch, rounded down, so negative when
/// the clock reads before the epoch (and saturated at the ends of `i64`). Nothing is known of
/// the value, which depends on the time.
pub(crate) fn unix_now_seconds() -> (r: i64)
{
    let now = system_now();
    match since_unix_epoch(&now) {
        Ok(d) => {
            let secs = duration_secs(&d);
            if secs <= 9_223_372_036_854_775_807u64 { secs as i64 } else { i64::MAX }
        },
        Err(e) => {
            let back = error_duration(&e);
            seconds_before_epoch(duration_secs(&back), duration_subsec_nanos(&back))
        },
    }
}

} // verus!
