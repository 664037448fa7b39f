//! Clocks. Readings are plain millisecond counts; the logic that uses them
//! takes them as arguments.
use std::time::{Duration, Instant, SystemTime, UNIX_EPOCH};
use vstd::prelude::*;

verus! {

/// The monotonic clock's instants (`std::time::Instant`); opaque here, and
/// only carried through to read the time elapsed since one.
#[verifier::external_type_specification]
#[verifier::external_body]
pub struct ExInstant(Instant);

/// Reads the monotonic clock (`Instant::now`). Nothing is promised of the
/// reading.
#[verifier::external_body]
pub(crate) fn instant_now() -> Instant {
    Instant::now()
}

/// Milliseconds elapsed on the monotonic clock since `origin`
/// (`Instant::elapsed`, as whole milliseconds). The reading depends on the
/// time of the call, so nothing is promised of its value.
#[verifier::external_body]
fn elapsed_millis(origin: &Instant) -> u128 {
    origin.elapsed().as_millis()
}

/// The total number of whole milliseconds in the duration `d`, as
/// `Duration::as_millis` gives them.
pub uninterp spec fn duration_ms(d: Duration) -> u128;

/// The whole milliseconds of `d` (`Duration::as_millis`). `Duration` is
/// opaque here, so the result is only claimed to be the named function
/// `duration_ms` of `d`: the same duration gives the same count.
#[verifier::external_body]
fn whole_millis(d: Duration) -> (r: u128)
    ensures
        r == duration_ms(d),
{
    d.as_millis()
}

/// The whole milliseconds since the Unix epoch on the wall clock
/// (`SystemTime::now` and `SystemTime::duration_since`), or none when the
/// clock reads a time before the epoch. Nothing is promised of the value.
#[verifier::external_body]
fn epoch_millis() -> Option<u128> {
    match SystemTime::now().duration_since(UNIX_EPOCH) {
        Ok(elapsed) => Some(elapsed.as_millis()),
        Err(_) => None,
    }
}

/// `x` capped at `u64::MAX`.
pub open spec fn cap_u64(x: u128) -> u64 {
    if x > u64::MAX { u64::MAX } else { x as u64 }
}

fn capped(x: u128) -> (r: u64)
    ensures
        r == cap_u64(x),
{
    if x > 18446744073709551615 {
        u64::MAX
    } else {
        x as u64
    }
}

/// Milliseconds elapsed on the monotonic clock since `origin`, capped at
/// `u64::MAX`.
pub(crate) fn millis_since(origin: &Instant) -> u64 {
    capped(elapsed_millis(origin))
}

/// The length of `d` in milliseconds, capped at `u64::MAX`.
pub(crate) fn duration_millis(d: Duration) -> (r: u64)
    ensures
        r == cap_u64(duration_ms(d)),
{
    capped(whole_millis(d))
}

/// Clock helpers used by the hub.
pub struct TimeUtil;

impl TimeUtil {
    /// Milliseconds since the Unix epoch on the wall clock, capped at
    /// `u64::MAX`; 0 when the clock reads a time before the epoch.
    pub fn unix_time_ms() -> u64 {
        match epoch_millis() {
            Some(ms) => capped(ms),
            None => 0,
        }
    }

    /// The wall-clock time `delta_ms` milliseconds from now, saturating at
    /// `u64::MAX`.
    pub fn unix_time_ms_from_now(delta_ms: u64) -> (r: u64)
        ensures
            exists|u: u64| r == sat_add(u as int, delta_ms as int),
            r >= delta_ms,
    {
        let now = Self::unix_time_ms();
        Self::shifted_forward(now, delta_ms)
    }

    /// The wall-clock time of an event that happened at `then_ms` on the
    /// monotonic clock when that clock now reads `now_ms`.
    pub fn unix_time_ms_from_instant(then_ms: u64, now_ms: u64) -> (r: u64)
        ensures
            exists|u: u64| r == sat_sub(u as int, sat_sub(now_ms as int, then_ms as int) as int),
    {
        let unix_now = Self::unix_time_ms();
        Self::shifted_back(unix_now, now_ms, then_ms)
    }

    /// `unix_ms + delta_ms`, saturating at `u64::MAX`.
    pub fn shifted_forward(unix_ms: u64, delta_ms: u64) -> (r: u64)
        ensures
            r == sat_add(unix_ms as int, delta_ms as int),
            r >= delta_ms,
    {
        unix_ms.saturating_add(delta_ms)
    }

    /// `unix_ms` moved back by the age `now_ms - then_ms` (taken as 0 when
    /// `then_ms` lies after `now_ms`), saturating at 0.
    pub fn shifted_back(unix_ms: u64, now_ms: u64, then_ms: u64) -> (r: u64)
        ensures
            r == sat_sub(unix_ms as int, sat_sub(now_ms as int, then_ms as int) as int),
    {
        unix_ms.saturating_sub(now_ms.saturating_sub(then_ms))
    }
}

/// `a + b` capped at `u64::MAX`.
pub open spec fn sat_add(a: int, b: int) -> u64 {
    if a + b > u64::MAX { u64::MAX } else { (a + b) as u64 }
}

/// `a - b` floored at 0.
pub open spec fn sat_sub(a: int, b: int) -> u64 {
    if a - b < 0 { 0 } else { (a - b) as u64 }
}

/// Milliseconds since the Unix epoch on the wall clock, truncated to
/// `u64`; 0 when the clock reads a time before the epoch.
pub fn current_unix_ms() -> u64 {
    match epoch_millis() {
        Some(ms) => (ms % 18446744073709551616) as u64,
        None => 0,
    }
}

} // verus!
