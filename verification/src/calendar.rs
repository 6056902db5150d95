//! Civil (Gregorian) calendar arithmetic for the window the RTC driver
//! works in: 1970-01-01 through 2099-12-31, UTC.
//!
//! A `CalendarTime` is a naive broken-down instant with millisecond
//! precision.  Millisecond values of 1000 and above encode an instant inside
//! a leap second (second 59 stretched); only values below 1000 take part in
//! the conversions to and from epoch microseconds.

use vstd::prelude::*;
use vstd::arithmetic::div_mod::{
    lemma_fundamental_div_mod, lemma_fundamental_div_mod_converse, lemma_mod_bound,
};

verus! {

/// A naive broken-down calendar instant (no time zone attached).
#[derive(Debug, Clone, Copy, PartialEq, Eq, Structural)]
pub struct CalendarTime {
    /// Full year, 1970 through 2099.
    pub year: i32,
    /// Month, 1 through 12.
    pub month: u8,
    /// Day of the month, 1 through 31.
    pub day: u8,
    /// Hour, 0 through 23.
    pub hour: u8,
    /// Minute, 0 through 59.
    pub minute: u8,
    /// Second, 0 through 59.
    pub second: u8,
    /// Milliseconds within the second, 0 through 1999; values of 1000 and
    /// above stand for an instant inside a leap second.
    pub milli: u16,
}

/// Gregorian leap-year rule.
pub open spec fn is_leap_year(y: int) -> bool {
    y % 4 == 0 && (y % 100 != 0 || y % 400 == 0)
}

/// Days in a month of a given year.
pub open spec fn days_in_month(y: int, m: int) -> int {
    if m == 2 {
        if is_leap_year(y) {
            29
        } else {
            28
        }
    } else if m == 4 || m == 6 || m == 9 || m == 11 {
        30
    } else {
        31
    }
}

/// Days in a whole year.
pub open spec fn days_in_year(y: int) -> int {
    if is_leap_year(y) {
        366
    } else {
        365
    }
}

/// Days from 1970-01-01 up to January 1st of year `y`.
pub open spec fn days_before_year(y: int) -> int
    decreases y - 1970,
{
    if y <= 1970 {
        0
    } else {
        days_before_year(y - 1) + days_in_year(y - 1)
    }
}

/// Days from January 1st of year `y` up to the first of month `m`.
pub open spec fn days_before_month(y: int, m: int) -> int
    decreases m,
{
    if m <= 1 {
        0
    } else {
        days_before_month(y, m - 1) + days_in_month(y, m - 1)
    }
}

/// Field ranges of a broken-down instant, without requiring the day to
/// exist in its month.
pub open spec fn wf_calendar(c: CalendarTime) -> bool {
    &&& 1970 <= c.year <= 2099
    &&& 1 <= c.month <= 12
    &&& 1 <= c.day <= 31
    &&& c.hour < 24
    &&& c.minute < 60
    &&& c.second < 60
    &&& c.milli < 2000
}

/// A broken-down instant that names a real calendar day.
pub open spec fn valid_calendar(c: CalendarTime) -> bool {
    wf_calendar(c) && c.day <= days_in_month(c.year as int, c.month as int)
}

/// Days from 1970-01-01 to the calendar day of `c`.
pub open spec fn days_of_calendar(c: CalendarTime) -> int {
    days_before_year(c.year as int) + days_before_month(c.year as int, c.month as int) + c.day
        - 1
}

/// Whole seconds since the UNIX epoch at `c` (ignoring `milli`).
pub open spec fn secs_of_calendar(c: CalendarTime) -> int {
    days_of_calendar(c) * 86400 + c.hour * 3600 + c.minute * 60 + c.second
}

/// Microseconds since the UNIX epoch at `c` (millisecond granularity).
pub open spec fn usecs_of_calendar(c: CalendarTime) -> int {
    secs_of_calendar(c) * 1_000_000 + c.milli * 1000
}

/// First epoch microsecond past the supported window: 2100-01-01 00:00:00.
pub open spec fn calendar_limit_usecs() -> int {
    days_before_year(2100) * 86400 * 1_000_000
}

/// One year advances `days_before_year` by that year's length.
proof fn lemma_days_before_year_step(y: int)
    requires
        y >= 1970,
    ensures
        days_before_year(y + 1) == days_before_year(y) + days_in_year(y),
{
}

/// `days_before_year` grows by at least 365 and at most 366 per year.
proof fn lemma_days_before_year_bounds(y: int)
    requires
        y >= 1970,
    ensures
        365 * (y - 1970) <= days_before_year(y) <= 366 * (y - 1970),
    decreases y - 1970,
{
    if y > 1970 {
        lemma_days_before_year_bounds(y - 1);
    }
}

/// A whole year's months add up to the year's length.
proof fn lemma_days_before_month_full_year(y: int)
    ensures
        days_before_month(y, 13) == days_in_year(y),
{
    reveal_with_fuel(days_before_month, 13);
}

/// Months are at most 31 days, so `days_before_month` stays under 31 per month.
proof fn lemma_days_before_month_bounds(y: int, m: int)
    requires
        1 <= m <= 13,
    ensures
        0 <= days_before_month(y, m) <= 31 * (m - 1),
    decreases m,
{
    if m > 1 {
        lemma_days_before_month_bounds(y, m - 1);
    }
}

/// `days_before_year` never shrinks as the year grows.
proof fn lemma_days_before_year_monotonic(y1: int, y2: int)
    requires
        1970 <= y1 <= y2,
    ensures
        days_before_year(y1) <= days_before_year(y2),
    decreases y2 - y1,
{
    if y1 < y2 {
        lemma_days_before_year_monotonic(y1, y2 - 1);
        lemma_days_before_year_step(y2 - 1);
    }
}

/// Leap-year test over the supported window.
pub fn is_leap_year_exec(y: i32) -> (r: bool)
    requires
        1970 <= y <= 2100,
    ensures
        r == is_leap_year(y as int),
{
    y % 4 == 0 && (y % 100 != 0 || y % 400 == 0)
}

/// Days in a month, as executable code.
pub fn days_in_month_exec(y: i32, m: u8) -> (r: u32)
    requires
        1970 <= y <= 2100,
        1 <= m <= 12,
    ensures
        r == days_in_month(y as int, m as int),
{
    if m == 2 {
        if is_leap_year_exec(y) {
            29
        } else {
            28
        }
    } else if m == 4 || m == 6 || m == 9 || m == 11 {
        30
    } else {
        31
    }
}

/// Days in a whole year, as executable code.
fn days_in_year_exec(y: i32) -> (r: u32)
    requires
        1970 <= y <= 2100,
    ensures
        r == days_in_year(y as int),
{
    if is_leap_year_exec(y) {
        366
    } else {
        365
    }
}

/// Days from 1970-01-01 up to January 1st of year `y`.
fn days_before_year_exec(y: i32) -> (r: u32)
    requires
        1970 <= y <= 2100,
    ensures
        r == days_before_year(y as int),
{
    let mut acc: u32 = 0;
    let mut i: i32 = 1970;
    while i < y
        invariant
            1970 <= i <= y <= 2100,
            acc == days_before_year(i as int),
            acc <= 366 * (i - 1970),
        decreases y - i,
    {
        proof {
            lemma_days_before_year_step(i as int);
            lemma_days_before_year_bounds((i + 1) as int);
        }
        acc = acc + days_in_year_exec(i);
        i = i + 1;
    }
    acc
}

/// Days from January 1st of year `y` up to the first of month `m`.
fn days_before_month_exec(y: i32, m: u8) -> (r: u32)
    requires
        1970 <= y <= 2100,
        1 <= m <= 12,
    ensures
        r == days_before_month(y as int, m as int),
{
    let mut acc: u32 = 0;
    let mut i: u8 = 1;
    while i < m
        invariant
            1970 <= y <= 2100,
            1 <= i <= m <= 12,
            acc == days_before_month(y as int, i as int),
            acc <= 31 * (i - 1),
        decreases m - i,
    {
        proof {
            lemma_days_before_month_bounds(y as int, (i + 1) as int);
        }
        acc = acc + days_in_month_exec(y, i);
        i = i + 1;
    }
    acc
}

/// Epoch microseconds of a valid instant.  Exact; this is the UTC
/// interpretation of the naive instant.  A leap-second value (sub-second
/// part of 1000 ms or more) spills into the following second, the way the
/// stretched sub-second encoding reads.
pub fn usecs_of_utc(c: &CalendarTime) -> (r: u64)
    requires
        valid_calendar(*c),
    ensures
        r == usecs_of_calendar(*c),
        c.milli <= 999 ==> r < calendar_limit_usecs(),
{
    proof {
        lemma_days_before_year_bounds(c.year as int);
        lemma_days_before_month_bounds(c.year as int, c.month as int);
        lemma_days_before_month_sum(c.year as int, c.month as int);
        lemma_days_before_year_step(c.year as int);
        lemma_days_before_year_monotonic(c.year as int + 1, 2100);
        lemma_days_before_year_bounds(2100);
    }
    let days: u32 = days_before_year_exec(c.year) + days_before_month_exec(c.year, c.month)
        + (c.day as u32 - 1);
    let secs: u64 = days as u64 * 86400 + c.hour as u64 * 3600 + c.minute as u64 * 60
        + c.second as u64;
    secs * 1_000_000 + c.milli as u64 * 1000
}

/// The first epoch microsecond past the supported window, as a value.
pub fn calendar_limit() -> (r: u64)
    ensures
        r == calendar_limit_usecs(),
{
    proof {
        lemma_days_before_year_bounds(2100);
    }
    days_before_year_exec(2100) as u64 * 86400 * 1_000_000
}

/// Division by a positive constant keeps the quotient-remainder identity
/// with a remainder below the divisor.
proof fn lemma_div_rem(x: int, d: int)
    requires
        0 <= x,
        0 < d,
    ensures
        x == d * (x / d) + x % d,
        0 <= x % d < d,
        0 <= x / d,
        d * (x / d) <= x,
{
    lemma_fundamental_div_mod(x, d);
    lemma_mod_bound(x, d);
    vstd::arithmetic::div_mod::lemma_div_pos_is_pos(x, d);
}

/// The broken-down UTC instant of an epoch-microsecond count, truncated to
/// millisecond precision.  `None` exactly when the instant lies at or past
/// the supported window's end.
pub fn utc_of_usecs(u: u64) -> (r: Option<CalendarTime>)
    ensures
        r matches Some(c) ==> valid_calendar(c) && c.milli <= 999 && usecs_of_calendar(c) == (
        u as int / 1000) * 1000,
        r is Some <==> u < calendar_limit_usecs(),
{
    let limit = calendar_limit();
    if u >= limit {
        return None;
    }
    let total_ms: u64 = u / 1000;
    let total_secs: u64 = total_ms / 1000;
    proof {
        lemma_div_rem(u as int, 1000);
        lemma_div_rem(total_ms as int, 1000);
        lemma_div_rem(total_secs as int, 86400);
    }
    let milli: u64 = total_ms - total_secs * 1000;
    let days: u64 = total_secs / 86400;
    let sod: u64 = total_secs - days * 86400;
    proof {
        lemma_div_rem(sod as int, 3600);
        lemma_days_before_year_bounds(2100);
    }
    let hour: u64 = sod / 3600;
    let rem_h: u64 = sod - hour * 3600;
    proof {
        lemma_div_rem(rem_h as int, 60);
    }
    let minute: u64 = rem_h / 60;
    let second: u64 = rem_h - minute * 60;
    assert(days < days_before_year(2100));

    let ghost gdays = days as int;
    let mut year: i32 = 1970;
    let mut day_rem: u32 = days as u32;
    while days_in_year_exec(year) <= day_rem
        invariant
            1970 <= year <= 2099,
            days_before_year(year as int) + day_rem == gdays,
            gdays < days_before_year(2100),
        decreases 2100 - year,
    {
        proof {
            lemma_days_before_year_step(year as int);
            if year + 1 == 2100 {
                assert(days_before_year(2100) <= gdays);
            } else {
                lemma_days_before_year_step((year + 1) as int);
                lemma_days_before_year_monotonic((year + 2) as int, 2100);
            }
        }
        day_rem = day_rem - days_in_year_exec(year);
        year = year + 1;
    }
    assert(day_rem < days_in_year(year as int));

    let mut month: u8 = 1;
    let mut mday_rem: u32 = day_rem;
    while days_in_month_exec(year, month) <= mday_rem
        invariant
            1970 <= year <= 2099,
            1 <= month <= 12,
            days_before_month(year as int, month as int) + mday_rem == day_rem,
            day_rem < days_in_year(year as int),
        decreases 12 - month,
    {
        proof {
            if month == 12 {
                lemma_days_before_month_full_year(year as int);
            }
        }
        mday_rem = mday_rem - days_in_month_exec(year, month);
        month = month + 1;
    }

    let c = CalendarTime {
        year,
        month,
        day: (mday_rem + 1) as u8,
        hour: hour as u8,
        minute: minute as u8,
        second: second as u8,
        milli: milli as u16,
    };
    assert(usecs_of_calendar(c) == (u as int / 1000) * 1000);
    Some(c)
}

/// `days_before_month` never shrinks as the month grows.
proof fn lemma_days_before_month_monotonic(y: int, m1: int, m2: int)
    requires
        1 <= m1 <= m2 <= 13,
    ensures
        days_before_month(y, m1) <= days_before_month(y, m2),
    decreases m2 - m1,
{
    if m1 < m2 {
        lemma_days_before_month_monotonic(y, m1, m2 - 1);
    }
}

/// A valid instant's day count stays within its own year.
proof fn lemma_days_within_year(c: CalendarTime)
    requires
        valid_calendar(c),
    ensures
        days_before_year(c.year as int) <= days_of_calendar(c),
        days_of_calendar(c) < days_before_year(c.year as int + 1),
{
    lemma_days_before_month_bounds(c.year as int, c.month as int);
    lemma_days_before_month_sum(c.year as int, c.month as int);
    lemma_days_before_year_step(c.year as int);
}

/// Epoch microseconds determine the calendar: two valid instants with
/// sub-second parts below one second and the same microsecond count are
/// the same instant.  (With the stretched leap-second encoding this
/// would fail: second 59 at 1999 ms and the next second at 999 ms share
/// a microsecond count.)
pub proof fn lemma_usecs_of_calendar_injective(c1: CalendarTime, c2: CalendarTime)
    requires
        valid_calendar(c1),
        valid_calendar(c2),
        c1.milli <= 999,
        c2.milli <= 999,
        usecs_of_calendar(c1) == usecs_of_calendar(c2),
    ensures
        c1 == c2,
{
    let u = usecs_of_calendar(c1);
    let secs1 = secs_of_calendar(c1);
    let secs2 = secs_of_calendar(c2);
    let days1 = days_of_calendar(c1);
    let days2 = days_of_calendar(c2);
    let sod1 = c1.hour * 3600 + c1.minute * 60 + c1.second;
    let sod2 = c2.hour * 3600 + c2.minute * 60 + c2.second;
    lemma_days_within_year(c1);
    lemma_days_within_year(c2);
    lemma_days_before_year_bounds(c1.year as int);
    lemma_days_before_year_bounds(c2.year as int);

    // Peel microseconds: the second count and the milliseconds agree.
    lemma_fundamental_div_mod_converse(u, 1_000_000, secs1, c1.milli * 1000);
    lemma_fundamental_div_mod_converse(u, 1_000_000, secs2, c2.milli * 1000);
    assert(secs1 == secs2 && c1.milli == c2.milli);

    // Peel seconds: the day count and the second-of-day agree.
    lemma_fundamental_div_mod_converse(secs1, 86400, days1, sod1);
    lemma_fundamental_div_mod_converse(secs2, 86400, days2, sod2);
    assert(days1 == days2 && sod1 == sod2);

    // Within the day the fields follow by two more divisions.
    lemma_fundamental_div_mod_converse(sod1, 3600, c1.hour as int, c1.minute * 60 + c1.second);
    lemma_fundamental_div_mod_converse(sod2, 3600, c2.hour as int, c2.minute * 60 + c2.second);
    lemma_fundamental_div_mod_converse(
        c1.minute * 60 + c1.second,
        60,
        c1.minute as int,
        c1.second as int,
    );
    lemma_fundamental_div_mod_converse(
        c2.minute * 60 + c2.second,
        60,
        c2.minute as int,
        c2.second as int,
    );
    assert(c1.hour == c2.hour && c1.minute == c2.minute && c1.second == c2.second);

    // The years agree: each year's days form a half-open interval and
    // the intervals are disjoint.
    if c1.year < c2.year {
        lemma_days_before_year_monotonic(c1.year as int + 1, c2.year as int);
        assert(false);
    }
    if c2.year < c1.year {
        lemma_days_before_year_monotonic(c2.year as int + 1, c1.year as int);
        assert(false);
    }

    // The months agree by the same interval argument within the year.
    let y = c1.year as int;
    let yday1 = days_before_month(y, c1.month as int) + c1.day - 1;
    let yday2 = days_before_month(y, c2.month as int) + c2.day - 1;
    assert(yday1 == yday2);
    if c1.month < c2.month {
        lemma_days_before_month_monotonic(y, c1.month as int + 1, c2.month as int);
        assert(false);
    }
    if c2.month < c1.month {
        lemma_days_before_month_monotonic(y, c2.month as int + 1, c1.month as int);
        assert(false);
    }
}

/// The days of `c`'s year before and after month `m` bracket the year.
proof fn lemma_days_before_month_sum(y: int, m: int)
    requires
        1 <= m <= 12,
    ensures
        days_before_month(y, m) + days_in_month(y, m) <= days_in_year(y),
    decreases 13 - m,
{
    if m == 12 {
        lemma_days_before_month_full_year(y);
    } else {
        lemma_days_before_month_sum(y, m + 1);
        assert(days_in_month(y, m + 1) >= 28);
    }
}

} // verus!
