//! Clock-domain bookkeeping: realtime and monotonic instants, and the
//! offset arithmetic that moves a monotonic instant into the realtime domain.

use vstd::prelude::*;

verus! {

/// An instant on the wall clock: microseconds since the UNIX epoch, in UTC.
#[derive(Debug, Clone, Copy, PartialEq, Eq, Structural)]
pub struct RealtimeInstant {
    pub usecs: u64,
}

/// An instant on the monotonic clock: microseconds since the (arbitrary)
/// monotonic epoch, unaffected by wall-clock adjustments.
#[derive(Debug, Clone, Copy, PartialEq, Eq, Structural)]
pub struct MonotonicInstant {
    pub usecs: u64,
}

/// Interprets a count of microseconds since the UNIX epoch as a realtime
/// instant.  Exact; no rounding.
pub fn from_timestamp_usecs(usecs: u64) -> (r: RealtimeInstant)
    ensures
        r.usecs == usecs,
{
    RealtimeInstant { usecs }
}

impl RealtimeInstant {
    /// This instant as whole milliseconds since the UNIX epoch (truncated).
    pub fn millis_i64(&self) -> (r: i64)
        ensures
            r == self.usecs as int / 1000,
    {
        (self.usecs / 1000) as i64
    }
}

/// Which kernel clock to read.
#[derive(Debug, Clone, Copy, PartialEq, Eq, Structural)]
pub enum ClockSource {
    Monotonic,
    Realtime,
}

/// A single reading of both kernel clocks, taken as close together as the
/// two calls allow.  Both values are microseconds on their own clock.
#[derive(Debug, Clone, Copy, PartialEq, Eq, Structural)]
pub struct ClockSnapshot {
    pub realtime_usecs: i64,
    pub monotonic_usecs: i64,
}

/// Relies on nix::time::clock_gettime for the chosen clock.  The kernel
/// hands back a normalized timespec, so the nanosecond part is always in
/// [0, 1_000_000_000).  Nothing more can be promised: the result is the
/// current time.
#[verifier::external_body]
fn clock_now(source: ClockSource) -> (r: Option<(i64, i64)>)
    ensures
        r matches Some(t) ==> 0 <= t.1 < 1_000_000_000,
{
    let id = match source {
        ClockSource::Monotonic => nix::time::ClockId::CLOCK_MONOTONIC,
        ClockSource::Realtime => nix::time::ClockId::CLOCK_REALTIME,
    };
    nix::time::clock_gettime(id).ok().map(|ts| (ts.tv_sec(), ts.tv_nsec()))
}

/// Collapses a (seconds, nanoseconds) clock reading to whole microseconds,
/// or `None` when the result would not fit in an `i64`.
fn usecs_of_timespec(secs: i64, nsecs: i64) -> (r: Option<i64>)
    requires
        0 <= nsecs < 1_000_000_000,
    ensures
        r matches Some(v) ==> v == secs * 1_000_000 + nsecs / 1000,
        r is Some <==> i64::MIN <= secs * 1_000_000 && secs * 1_000_000 + nsecs / 1000
            <= i64::MAX,
{
    match secs.checked_mul(1_000_000) {
        Some(s) => s.checked_add(nsecs / 1000),
        None => None,
    }
}

/// Reads both kernel clocks once, realtime first.  Returns `None` when
/// either clock cannot be read or a reading does not fit in microseconds.
pub fn read_clock_snapshot() -> (r: Option<ClockSnapshot>)
{
    let realtime = match clock_now(ClockSource::Realtime) {
        Some((s, n)) => usecs_of_timespec(s, n),
        None => None,
    };
    let monotonic = match clock_now(ClockSource::Monotonic) {
        Some((s, n)) => usecs_of_timespec(s, n),
        None => None,
    };
    match (realtime, monotonic) {
        (Some(realtime_usecs), Some(monotonic_usecs)) => Some(ClockSnapshot {
            realtime_usecs,
            monotonic_usecs,
        }),
        _ => None,
    }
}

/// The current wall-clock time, or `None` when the clock cannot be read or
/// lies before the UNIX epoch.
pub fn realtime_now() -> (r: Option<RealtimeInstant>)
{
    match clock_now(ClockSource::Realtime) {
        Some((s, n)) => match usecs_of_timespec(s, n) {
            Some(v) => {
                if v >= 0 {
                    Some(RealtimeInstant { usecs: v as u64 })
                } else {
                    None
                }
            },
            None => None,
        },
        None => None,
    }
}

/// The realtime instant that a monotonic instant corresponds to under a
/// given snapshot: the monotonic value shifted by the realtime-minus-
/// monotonic offset the snapshot exhibits.
pub open spec fn realtime_of_monotonic(m: MonotonicInstant, snap: ClockSnapshot) -> int {
    m.usecs + snap.realtime_usecs - snap.monotonic_usecs
}

/// Moves a monotonic instant into the realtime domain using the offset a
/// snapshot exhibits.  `None` exactly when the shifted value falls outside
/// the representable realtime range.
pub fn monotonic_to_realtime_at(m: MonotonicInstant, snap: &ClockSnapshot) -> (r: Option<
    RealtimeInstant,
>)
    ensures
        r matches Some(t) ==> t.usecs == realtime_of_monotonic(m, *snap),
        r is Some <==> 0 <= realtime_of_monotonic(m, *snap) <= u64::MAX,
{
    let shifted: i128 = m.usecs as i128 + snap.realtime_usecs as i128
        - snap.monotonic_usecs as i128;
    if 0 <= shifted && shifted <= u64::MAX as i128 {
        Some(RealtimeInstant { usecs: shifted as u64 })
    } else {
        None
    }
}

/// Moves a monotonic instant into the realtime domain using a fresh reading
/// of both clocks.  The offset is recomputed on every call: caching it would
/// drift under clock adjustments.  The result depends on the current time,
/// so nothing more exact can be promised of it; the offset arithmetic itself
/// is pinned down by `monotonic_to_realtime_at`.
pub fn monotonic_to_realtime(m: MonotonicInstant) -> (r: Option<RealtimeInstant>)
{
    match read_clock_snapshot() {
        Some(snap) => monotonic_to_realtime_at(m, &snap),
        None => None,
    }
}

} // verus!
