//! The wake-alarm planner: gather each timer's next activation, pick the
//! earliest, and decide whether the RTC alarm must be rewritten.
//!
//! Everything here is pure decision logic over plain values; reading timer
//! properties and issuing the ioctl happen outside the library.

use vstd::prelude::*;
use vstd::arithmetic::div_mod::{lemma_div_denominator, lemma_fundamental_div_mod_converse};
use crate::calendar::{calendar_limit_usecs, usecs_of_calendar, valid_calendar, CalendarTime};
use crate::rtcwake::{
    calendar_of_rtc, rtc_of_calendar, wf_rtc_time, CalendarError, ClockMode, RtcTime,
    RtcWakeAlarm,
};
use crate::time::{
    monotonic_to_realtime_at, realtime_of_monotonic, ClockSnapshot, MonotonicInstant,
    RealtimeInstant,
};

verus! {

/// What one timer unit reports: its next activation on each clock, in
/// microseconds on that clock.  Zero means "no event on this clock".
#[derive(Debug, Clone, Copy, PartialEq, Eq, Structural)]
pub struct TimerElapsation {
    /// Next activation on the wall clock, or 0 for none.
    pub next_realtime_usecs: u64,
    /// Next activation on the monotonic clock, or 0 for none.
    pub next_monotonic_usecs: u64,
}

/// The wall-clock instant a timer's realtime report contributes, if any.
pub open spec fn realtime_contribution(e: TimerElapsation) -> Option<u64> {
    if e.next_realtime_usecs == 0 {
        None
    } else {
        Some(e.next_realtime_usecs)
    }
}

/// The wall-clock instant a timer's monotonic report contributes under a
/// clock snapshot, if any: the shifted value, when it is representable.
pub open spec fn monotonic_contribution(e: TimerElapsation, snap: ClockSnapshot) -> Option<u64> {
    if e.next_monotonic_usecs == 0 {
        None
    } else {
        let shifted = realtime_of_monotonic(
            MonotonicInstant { usecs: e.next_monotonic_usecs },
            snap,
        );
        if 0 <= shifted <= u64::MAX {
            Some(shifted as u64)
        } else {
            None
        }
    }
}

/// A timer's next activation in the wall-clock domain: the earlier of its
/// two contributions, when it has any.
pub open spec fn spec_next_activation(e: TimerElapsation, snap: ClockSnapshot) -> Option<u64> {
    match (realtime_contribution(e), monotonic_contribution(e, snap)) {
        (None, None) => None,
        (Some(r), None) => Some(r),
        (None, Some(m)) => Some(m),
        (Some(r), Some(m)) => Some(
            if r <= m {
                r
            } else {
                m
            },
        ),
    }
}

/// A timer's next activation in the wall-clock domain, under a given clock
/// snapshot.  `None` when the timer reports no event on either clock, or
/// when its only report cannot be shifted into range.
pub fn next_activation(e: &TimerElapsation, snap: &ClockSnapshot) -> (r: Option<RealtimeInstant>)
    ensures
        r is Some <==> spec_next_activation(*e, *snap) is Some,
        r matches Some(t) ==> spec_next_activation(*e, *snap) == Some(t.usecs),
{
    let realtime: Option<RealtimeInstant> = if e.next_realtime_usecs == 0 {
        None
    } else {
        Some(RealtimeInstant { usecs: e.next_realtime_usecs })
    };
    let monotonic: Option<RealtimeInstant> = if e.next_monotonic_usecs == 0 {
        None
    } else {
        monotonic_to_realtime_at(MonotonicInstant { usecs: e.next_monotonic_usecs }, snap)
    };
    match (realtime, monotonic) {
        (None, None) => None,
        (Some(r), None) => Some(r),
        (None, Some(m)) => Some(m),
        (Some(r), Some(m)) => Some(
            if r.usecs <= m.usecs {
                r
            } else {
                m
            },
        ),
    }
}

/// The earliest next activation across a set of timers, under one clock
/// snapshot; timers that contribute nothing are passed over.
pub open spec fn spec_plan_target(units: Seq<TimerElapsation>, snap: ClockSnapshot) -> Option<
    u64,
>
    decreases units.len(),
{
    if units.len() == 0 {
        None
    } else {
        let rest = spec_plan_target(units.drop_last(), snap);
        let last = spec_next_activation(units.last(), snap);
        match (rest, last) {
            (None, x) => x,
            (Some(a), None) => Some(a),
            (Some(a), Some(b)) => Some(
                if a <= b {
                    a
                } else {
                    b
                },
            ),
        }
    }
}

/// The earliest next activation across the given timers; `None` when no
/// timer contributes at all.
pub fn plan_wake_target(units: &Vec<TimerElapsation>, snap: &ClockSnapshot) -> (r: Option<
    RealtimeInstant,
>)
    ensures
        r is Some <==> spec_plan_target(units@, *snap) is Some,
        r matches Some(t) ==> spec_plan_target(units@, *snap) == Some(t.usecs),
{
    let ghost gsnap = *snap;
    let mut acc: Option<RealtimeInstant> = None;
    assert(units@.subrange(0, 0) =~= Seq::<TimerElapsation>::empty());
    let n: usize = units.len();
    let mut i: usize = 0;
    while i < n
        invariant
            0 <= i <= n,
            n == units@.len(),
            gsnap == *snap,
            acc is Some <==> spec_plan_target(units@.subrange(0, i as int), gsnap) is Some,
            acc matches Some(t) ==> spec_plan_target(units@.subrange(0, i as int), gsnap)
                == Some(t.usecs),
        decreases n - i,
    {
        proof {
            assert(units@.subrange(0, i as int + 1).drop_last() =~= units@.subrange(
                0,
                i as int,
            ));
            assert(units@.subrange(0, i as int + 1).last() == units@[i as int]);
        }
        let next = next_activation(&units[i], snap);
        acc = match (acc, next) {
            (None, x) => x,
            (Some(a), None) => Some(a),
            (Some(a), Some(b)) => Some(
                if a.usecs <= b.usecs {
                    a
                } else {
                    b
                },
            ),
        };
        i = i + 1;
    }
    proof {
        assert(units@.subrange(0, n as int) =~= units@);
    }
    acc
}

/// Every contribution bounds the planned target from above: if some unit
/// of `units` contributes `w`, the plan exists and is at most `w`.
proof fn lemma_target_le_contribution(
    units: Seq<TimerElapsation>,
    snap: ClockSnapshot,
    i: int,
    w: u64,
)
    requires
        0 <= i < units.len(),
        spec_next_activation(units[i], snap) == Some(w),
    ensures
        spec_plan_target(units, snap) is Some,
        spec_plan_target(units, snap).unwrap() <= w,
    decreases units.len(),
{
    if i == units.len() - 1 {
    } else {
        lemma_target_le_contribution(units.drop_last(), snap, i, w);
    }
}

/// The planned target is itself some unit's contribution.
proof fn lemma_target_is_contribution(units: Seq<TimerElapsation>, snap: ClockSnapshot)
    requires
        spec_plan_target(units, snap) is Some,
    ensures
        exists|i: int|
            0 <= i < units.len() && spec_next_activation(units[i], snap) == Some(
                spec_plan_target(units, snap).unwrap(),
            ),
    decreases units.len(),
{
    let v = spec_plan_target(units, snap).unwrap();
    let rest = spec_plan_target(units.drop_last(), snap);
    let last = spec_next_activation(units.last(), snap);
    if last == Some(v) {
        assert(spec_next_activation(units[units.len() - 1], snap) == Some(v));
    } else {
        lemma_target_is_contribution(units.drop_last(), snap);
        let i = choose|i: int|
            0 <= i < units.drop_last().len() && spec_next_activation(
                units.drop_last()[i],
                snap,
            ) == Some(rest.unwrap());
        assert(spec_next_activation(units[i], snap) == Some(v));
    }
}

/// Planning is monotone in the timer set: handing the planner more timers
/// can only move the planned wake-up earlier, never later.
pub proof fn lemma_planner_monotonic(
    s1: Seq<TimerElapsation>,
    s2: Seq<TimerElapsation>,
    snap: ClockSnapshot,
)
    requires
        forall|i: int|
            #![trigger s1[i]]
            0 <= i < s1.len() ==> exists|j: int| 0 <= j < s2.len() && #[trigger] s2[j] == s1[i],
        spec_plan_target(s1, snap) is Some,
    ensures
        spec_plan_target(s2, snap) is Some,
        spec_plan_target(s2, snap).unwrap() <= spec_plan_target(s1, snap).unwrap(),
{
    let v = spec_plan_target(s1, snap).unwrap();
    lemma_target_is_contribution(s1, snap);
    let i = choose|i: int|
        0 <= i < s1.len() && spec_next_activation(s1[i], snap) == Some(v);
    let j = choose|j: int| 0 <= j < s2.len() && s2[j] == s1[i];
    lemma_target_le_contribution(s2, snap, j, v);
}

/// What the planner decides about the RTC alarm.
#[derive(Debug, Clone, Copy, PartialEq, Eq, Structural)]
pub enum AlarmPlan {
    /// The existing alarm fires no later than the target: leave it alone.
    Keep,
    /// Program this alarm record.
    Write(RtcWakeAlarm),
}

/// Why no alarm plan could be made.
#[derive(Debug, Clone, Copy, PartialEq, Eq, Structural)]
pub enum PlanError {
    /// The enabled alarm read back from the hardware does not decode to a
    /// calendar instant.
    UnreadableAlarm,
    /// The target lies outside the calendar window the RTC can hold.
    TargetOutOfRange,
    /// The local time zone cannot place the target or the alarm.
    UnrepresentableLocalTime,
}

/// Reading an alarm in UTC mode: its time decodes to a real calendar day.
pub open spec fn utc_alarm_readable(a: RtcWakeAlarm) -> bool {
    wf_rtc_time(a.time) && valid_calendar(calendar_of_rtc(a.time))
}

/// The wall-clock microseconds an enabled alarm stands at, in UTC mode.
pub open spec fn utc_prev_alarm_usecs(a: RtcWakeAlarm) -> int {
    usecs_of_calendar(calendar_of_rtc(a.time))
}

/// The non-clobber rule in UTC mode: the existing alarm stays exactly when
/// it is enabled, readable, and fires no later than the target.
pub open spec fn spec_keep_alarm_utc(current: RtcWakeAlarm, target_usecs: u64) -> bool {
    current.enabled && utc_alarm_readable(current) && target_usecs >= utc_prev_alarm_usecs(
        current,
    )
}

/// Field ranges of an RTC time, as executable code.
pub fn is_wf_rtc_time(t: &RtcTime) -> (r: bool)
    ensures
        r == wf_rtc_time(*t),
{
    0 <= t.tm_sec && t.tm_sec <= 60 && 0 <= t.tm_min && t.tm_min <= 59 && 0 <= t.tm_hour
        && t.tm_hour <= 23 && 1 <= t.tm_mday && t.tm_mday <= 31 && 0 <= t.tm_mon && t.tm_mon
        <= 11 && 70 <= t.tm_year && t.tm_year <= 199
}

/// An RTC write truncates the target to whole seconds: encoding the
/// target's calendar day into the RTC layout and reading it back lands on
/// the target's second.
proof fn lemma_alarm_second_granularity(c: CalendarTime, u: u64)
    requires
        valid_calendar(c),
        c.milli <= 999,
        usecs_of_calendar(c) == (u as int / 1000) * 1000,
    ensures
        usecs_of_calendar(calendar_of_rtc(rtc_of_calendar(c))) == (u as int / 1_000_000)
            * 1_000_000,
{
    let d = calendar_of_rtc(rtc_of_calendar(c));
    assert(d == CalendarTime { milli: 0, ..c });
    let secs = crate::calendar::secs_of_calendar(c);
    // usecs_of_calendar(c) == secs * 1_000_000 + c.milli * 1000 == (u/1000) * 1000,
    // so u/1000 == secs * 1000 + c.milli, and dividing by 1000 again isolates secs.
    assert(u as int / 1000 == secs * 1000 + c.milli);
    lemma_fundamental_div_mod_converse(u as int / 1000, 1000, secs, c.milli as int);
    lemma_div_denominator(u as int, 1000, 1000);
    assert(secs == u as int / 1_000_000);
}

/// The non-clobber rule on decoded values, fixed for every value the
/// clock mode's conversions can hand back.
///
/// `prev` is the decoding of the enabled alarm's time (`None` when the
/// alarm is disabled), `rendered` the target in the hardware clock's
/// zone.  The existing alarm is kept exactly when it decoded to an
/// instant no later than the target; an enabled alarm that failed to
/// decode is an error; otherwise the rendered target is written as an
/// enabled alarm, or the rendering failure is surfaced.
pub fn apply_nonclobber(
    current: &RtcWakeAlarm,
    prev: Option<Result<RealtimeInstant, CalendarError>>,
    rendered: Result<CalendarTime, CalendarError>,
    target: RealtimeInstant,
) -> (r: Result<AlarmPlan, PlanError>)
    requires
        rendered matches Ok(c) ==> crate::calendar::wf_calendar(c),
    ensures
        (r matches Err(e) && e is UnreadableAlarm) <==> (prev matches Some(d) && d is Err),
        (r matches Ok(p) && p is Keep) <==> (prev matches Some(d) && d matches Ok(i)
            && target.usecs >= i.usecs),
        !(prev matches Some(d) && d is Err) && !(prev matches Some(d) && d matches Ok(i)
            && target.usecs >= i.usecs) ==> ((r matches Ok(p) && p is Write) <==> rendered
            is Ok),
        rendered matches Ok(c) ==> (r matches Ok(p) ==> (p matches AlarmPlan::Write(a)
            ==> a.time == rtc_of_calendar(c))),
        !(prev matches Some(d) && d is Err) && !(prev matches Some(d) && d matches Ok(i)
            && target.usecs >= i.usecs) ==> (rendered matches Err(ce) ==> (r matches Err(e) && (
        e is TargetOutOfRange <==> ce is OutOfRange))),
        r matches Ok(p) ==> (p matches AlarmPlan::Write(a) ==> a.enabled && a.pending
            == current.pending && wf_rtc_time(a.time)),
{
    match prev {
        Some(Err(_)) => {
            return Err(PlanError::UnreadableAlarm);
        },
        Some(Ok(i)) => {
            if target.usecs >= i.usecs {
                return Ok(AlarmPlan::Keep);
            }
        },
        None => {},
    }
    match rendered {
        Ok(hw) => {
            let mut alarm = *current;
            alarm.set_enabled(true);
            alarm.set_time(&hw);
            Ok(AlarmPlan::Write(alarm))
        },
        Err(CalendarError::OutOfRange) => Err(PlanError::TargetOutOfRange),
        Err(_) => Err(PlanError::UnrepresentableLocalTime),
    }
}

/// Applies the non-clobber rule and builds the alarm record to program.
///
/// The current alarm, when enabled, is decoded through the hardware
/// clock's mode; the target is rendered in that zone; and
/// `apply_nonclobber` decides, with its contract fixing the outcome for
/// every decoded value in either mode.  In UTC mode the decodings
/// themselves are exact, so every branch is additionally pinned against
/// the calendar arithmetic; in local mode the zone library's answers
/// decide which branch is taken.
pub fn plan_alarm_write(current: &RtcWakeAlarm, mode: ClockMode, target: RealtimeInstant) -> (r:
    Result<AlarmPlan, PlanError>)
    ensures
        mode is Utc ==> ((r matches Ok(p) && p is Keep) <==> spec_keep_alarm_utc(
            *current,
            target.usecs,
        )),
        mode is Utc && current.enabled && !utc_alarm_readable(*current) ==> (r matches Err(e)
            && e is UnreadableAlarm),
        current.enabled && !wf_rtc_time(current.time) ==> (r matches Err(e)
            && e is UnreadableAlarm),
        mode is Utc && !spec_keep_alarm_utc(*current, target.usecs) && !(current.enabled
            && !utc_alarm_readable(*current)) ==> ((r matches Ok(p) && p is Write) <==> target.usecs
            < calendar_limit_usecs()),
        mode is Utc && !spec_keep_alarm_utc(*current, target.usecs) && !(current.enabled
            && !utc_alarm_readable(*current)) && target.usecs >= calendar_limit_usecs() ==> (
        r matches Err(e) && e is TargetOutOfRange),
        r matches Ok(p) ==> (p matches AlarmPlan::Write(a) ==> a.enabled && a.pending
            == current.pending),
        mode is Utc ==> (r matches Ok(p) ==> (p matches AlarmPlan::Write(a)
            ==> usecs_of_calendar(calendar_of_rtc(a.time)) == (target.usecs as int / 1_000_000)
            * 1_000_000)),
        r matches Ok(p) ==> (p is Keep ==> current.enabled),
        r matches Ok(p) ==> (p matches AlarmPlan::Write(a) ==> wf_rtc_time(a.time)),
{
    let prev: Option<Result<RealtimeInstant, CalendarError>> = if current.enabled {
        if is_wf_rtc_time(&current.time) {
            Some(mode.to_datetime(&current.time.to_chrono()))
        } else {
            Some(Err(CalendarError::InvalidDate))
        }
    } else {
        None
    };
    let rendered = mode.to_hardware(target);
    proof {
        if mode is Utc {
            match rendered {
                Ok(c) => lemma_alarm_second_granularity(c, target.usecs),
                Err(_) => {},
            }
        }
    }
    apply_nonclobber(current, prev, rendered, target)
}

/// The whole planning pass for one shutdown: the earliest activation
/// across the timers becomes the target, and the non-clobber rule decides
/// what to do with the RTC.  `Ok(None)` means no timer contributed and the
/// RTC is not touched at all.
pub fn plan_wake_alarm(
    units: &Vec<TimerElapsation>,
    snap: &ClockSnapshot,
    mode: ClockMode,
    current: &RtcWakeAlarm,
) -> (r: Result<Option<AlarmPlan>, PlanError>)
    ensures
        (r matches Ok(p) && p is None) <==> spec_plan_target(units@, *snap) is None,
        mode is Utc ==> ((r matches Ok(p) && p matches Some(q) && q is Keep) <==> (
        spec_plan_target(units@, *snap) matches Some(v) && spec_keep_alarm_utc(*current, v))),
        r matches Ok(p) ==> (p matches Some(q) ==> (q matches AlarmPlan::Write(a) ==> a.enabled
            && a.pending == current.pending)),
        mode is Utc ==> (r matches Ok(p) ==> (p matches Some(q) ==> (q matches AlarmPlan::Write(
            a,
        ) ==> spec_plan_target(units@, *snap) matches Some(v) && usecs_of_calendar(
            calendar_of_rtc(a.time),
        ) == (v as int / 1_000_000) * 1_000_000))),
        mode is Utc && spec_plan_target(units@, *snap) is Some && !spec_keep_alarm_utc(
            *current,
            spec_plan_target(units@, *snap).unwrap(),
        ) && !(current.enabled && !utc_alarm_readable(*current)) ==> ((r matches Ok(p)
            && p matches Some(q) && q is Write) <==> spec_plan_target(units@, *snap).unwrap()
            < calendar_limit_usecs()),
{
    match plan_wake_target(units, snap) {
        None => Ok(None),
        Some(target) => {
            match plan_alarm_write(current, mode, target) {
                Ok(plan) => Ok(Some(plan)),
                Err(e) => Err(e),
            }
        },
    }
}

} // verus!
