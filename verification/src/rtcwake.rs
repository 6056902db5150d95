//! The RTC wake-alarm data model: the kernel's broken-down time layout,
//! the wake-alarm record, and the hardware clock's time-zone mode.
//!
//! The ioctl traffic itself happens outside the library; everything here
//! works on plain values and is verified.

use vstd::prelude::*;
use crate::calendar::{
    days_in_month_exec, usecs_of_utc, utc_of_usecs, valid_calendar, wf_calendar,
    calendar_limit_usecs, usecs_of_calendar, CalendarTime,
};
use crate::time::RealtimeInstant;
use chrono::{Datelike, TimeZone, Timelike};

verus! {

/// The ioctl type byte of the RTC character device (ASCII `p`).
pub const RTC_IOCTL_IDENTIFIER: u8 = 0x70;

/// ioctl request number: write the wake alarm.
pub const RTC_WKALRM_SET: u8 = 0x0f;

/// ioctl request number: read the wake alarm.
pub const RTC_WKALRM_RD: u8 = 0x10;

/// The errno a device returns for an ioctl request it does not implement.
pub const ENOTTY: i32 = 25;

/// Failure modes of talking to the RTC device.
#[derive(Debug, Clone, Copy, PartialEq, Eq, Structural)]
pub enum RtcError {
    /// The device does not support the wake-alarm ioctls.
    HardwareUnsupported,
    /// Any other ioctl failure, with its errno.
    IoError(i32),
}

/// Sorts an ioctl errno into the RTC failure taxonomy: `ENOTTY` means the
/// hardware lacks the interface, anything else is an I/O failure.
pub fn classify_rtc_errno(errno: i32) -> (r: RtcError)
    ensures
        errno == ENOTTY ==> r is HardwareUnsupported,
        errno != ENOTTY ==> (r matches RtcError::IoError(e) && e == errno),
{
    if errno == ENOTTY {
        RtcError::HardwareUnsupported
    } else {
        RtcError::IoError(errno)
    }
}

/// The kernel's broken-down RTC time, field for field.
#[derive(Debug, Clone, Copy, PartialEq, Eq, Structural)]
pub struct RtcTime {
    /// Seconds, 0 through 60 (60 encodes a leap second).
    pub tm_sec: i32,
    /// Minutes, 0 through 59.
    pub tm_min: i32,
    /// Hours, 0 through 23.
    pub tm_hour: i32,
    /// Day of the month, 1 through 31.
    pub tm_mday: i32,
    /// Month, 0 through 11.
    pub tm_mon: i32,
    /// Year minus 1900.
    pub tm_year: i32,
    /// Day of the week; unused, zeroed on write.
    pub tm_wday: i32,
    /// Day in the year; unused, zeroed on write.
    pub tm_yday: i32,
    /// Daylight saving flag; unused, zeroed on write.
    pub tm_isdst: i32,
}

/// Field ranges under which an `RtcTime` names a broken-down instant the
/// calendar window covers.
pub open spec fn wf_rtc_time(t: RtcTime) -> bool {
    &&& 0 <= t.tm_sec <= 60
    &&& 0 <= t.tm_min <= 59
    &&& 0 <= t.tm_hour <= 23
    &&& 1 <= t.tm_mday <= 31
    &&& 0 <= t.tm_mon <= 11
    &&& 70 <= t.tm_year <= 199
}

/// The calendar instant an `RtcTime` denotes: month moves from 0-based to
/// 1-based, the year gains its 1900 offset, and a leap second (61st second)
/// becomes second 59 with a stretched sub-second part.
pub open spec fn calendar_of_rtc(t: RtcTime) -> CalendarTime {
    CalendarTime {
        year: (t.tm_year + 1900) as i32,
        month: (t.tm_mon + 1) as u8,
        day: t.tm_mday as u8,
        hour: t.tm_hour as u8,
        minute: t.tm_min as u8,
        second: if t.tm_sec == 60 {
            59
        } else {
            t.tm_sec as u8
        },
        milli: if t.tm_sec == 60 {
            1999
        } else {
            0
        },
    }
}

/// The `RtcTime` a calendar instant is written as: the inverse field
/// shifts, with an instant inside a leap second encoded as second 60, and
/// the unused fields zeroed.
pub open spec fn rtc_of_calendar(c: CalendarTime) -> RtcTime {
    RtcTime {
        tm_sec: if c.milli > 999 {
            60
        } else {
            c.second as i32
        },
        tm_min: c.minute as i32,
        tm_hour: c.hour as i32,
        tm_mday: c.day as i32,
        tm_mon: (c.month - 1) as i32,
        tm_year: (c.year - 1900) as i32,
        tm_wday: 0,
        tm_yday: 0,
        tm_isdst: 0,
    }
}

impl RtcTime {
    /// Reads this RTC time as a calendar instant.
    pub fn to_chrono(&self) -> (r: CalendarTime)
        requires
            wf_rtc_time(*self),
        ensures
            r == calendar_of_rtc(*self),
    {
        CalendarTime {
            year: self.tm_year + 1900,
            month: (self.tm_mon + 1) as u8,
            day: self.tm_mday as u8,
            hour: self.tm_hour as u8,
            minute: self.tm_min as u8,
            second: if self.tm_sec == 60 {
                59
            } else {
                self.tm_sec as u8
            },
            milli: if self.tm_sec == 60 {
                1999
            } else {
                0
            },
        }
    }

    /// Writes a calendar instant as an RTC time.
    pub fn from_chrono(dt: &CalendarTime) -> (r: RtcTime)
        requires
            wf_calendar(*dt),
        ensures
            r == rtc_of_calendar(*dt),
    {
        RtcTime {
            tm_sec: if dt.milli > 999 {
                60
            } else {
                dt.second as i32
            },
            tm_min: dt.minute as i32,
            tm_hour: dt.hour as i32,
            tm_mday: dt.day as i32,
            tm_mon: dt.month as i32 - 1,
            tm_year: dt.year - 1900,
            tm_wday: 0,
            tm_yday: 0,
            tm_isdst: 0,
        }
    }
}

/// Encoding and decoding an RTC time are mutually inverse: any calendar
/// instant in the supported window with whole seconds survives the round
/// trip through the RTC layout unchanged.
pub proof fn lemma_rtc_round_trip(c: CalendarTime)
    requires
        wf_calendar(c),
        c.milli == 0,
    ensures
        calendar_of_rtc(rtc_of_calendar(c)) == c,
{
}

/// The reverse round trip: an RTC value with in-range fields, no leap
/// second, and zeroed unused fields is reproduced by encoding its decoding.
pub proof fn lemma_rtc_round_trip_reverse(t: RtcTime)
    requires
        wf_rtc_time(t),
        t.tm_sec <= 59,
        t.tm_wday == 0,
        t.tm_yday == 0,
        t.tm_isdst == 0,
    ensures
        rtc_of_calendar(calendar_of_rtc(t)) == t,
{
}

/// Leap-second encoding: an instant with a sub-second part past 999 ms is
/// written as second 60, and decoding such a value lands at 999 ms or
/// later, so the leap-second crossing is preserved.
pub proof fn lemma_leap_second_encoding(c: CalendarTime)
    requires
        wf_calendar(c),
        c.milli > 999,
    ensures
        rtc_of_calendar(c).tm_sec == 60,
        calendar_of_rtc(rtc_of_calendar(c)).milli >= 999,
{
}

/// The RTC wake-alarm record: whether the alarm is armed, whether the
/// kernel reports it pending, and when it fires.
#[derive(Debug, Clone, Copy, PartialEq, Eq, Structural)]
pub struct RtcWakeAlarm {
    /// Is the alarm armed?  When false the kernel ignores `time`.
    pub enabled: bool,
    /// Set by the kernel; read-only to us.
    pub pending: bool,
    /// When the alarm fires, in the hardware clock's own time zone.
    pub time: RtcTime,
}

impl RtcWakeAlarm {
    /// Is the wake alarm enabled?
    pub fn enabled(&self) -> (r: bool)
        ensures
            r == self.enabled,
    {
        self.enabled
    }

    /// When will the alarm go off?
    pub fn time(&self) -> (r: CalendarTime)
        requires
            wf_rtc_time(self.time),
        ensures
            r == calendar_of_rtc(self.time),
    {
        self.time.to_chrono()
    }

    /// Arms or disarms the alarm, leaving the rest unchanged.
    pub fn set_enabled(&mut self, enabled: bool)
        ensures
            final(self).enabled == enabled,
            final(self).pending == old(self).pending,
            final(self).time == old(self).time,
    {
        self.enabled = enabled;
    }

    /// Points the alarm at a calendar instant, leaving the rest unchanged.
    pub fn set_time(&mut self, time: &CalendarTime)
        requires
            wf_calendar(*time),
        ensures
            final(self).time == rtc_of_calendar(*time),
            final(self).enabled == old(self).enabled,
            final(self).pending == old(self).pending,
    {
        self.time = RtcTime::from_chrono(time);
    }
}

/// Which time zone the hardware clock keeps.
#[derive(Debug, Clone, Copy, PartialEq, Eq, Structural)]
pub enum ClockMode {
    /// The hardware clock is in UTC.
    Utc,
    /// The hardware clock is in the machine's local time zone.
    Local,
}

/// Failure modes of moving between calendar fields and instants.
#[derive(Debug, Clone, Copy, PartialEq, Eq, Structural)]
pub enum CalendarError {
    /// The fields do not name a real calendar day in the supported window.
    InvalidDate,
    /// The instant lies outside the supported window.
    OutOfRange,
    /// The local time zone cannot place the value (nonexistent or
    /// ambiguous local time, or an unrepresentable result).
    UnrepresentableLocalTime,
}

/// Does this instant name a real calendar day in the supported window?
pub fn is_valid_calendar(c: &CalendarTime) -> (r: bool)
    ensures
        r == valid_calendar(*c),
{
    1970 <= c.year && c.year <= 2099 && 1 <= c.month && c.month <= 12 && 1 <= c.day && c.hour
        < 24 && c.minute < 60 && c.second < 60 && c.milli < 2000 && c.day as u32
        <= days_in_month_exec(c.year, c.month)
}

/// A broken-down local time as the time-zone library reports it; the
/// fields carry no invariant of their own.
#[derive(Debug, Clone, Copy, PartialEq, Eq, Structural)]
pub struct RawLocalTime {
    pub year: i32,
    pub month: u32,
    pub day: u32,
    pub hour: u32,
    pub minute: u32,
    pub second: u32,
    pub milli: u32,
}

/// Relies on chrono's `Local` time zone (`TimeZone::from_local_datetime`):
/// interprets naive civil fields in the machine's configured zone and
/// returns the epoch microseconds.  `None` when the fields name no date,
/// the local instant does not exist or is ambiguous, or the value is out
/// of chrono's range.  The result depends on the zone database and
/// environment, so nothing is promised of it.
#[verifier::external_body]
fn local_fields_to_instant(
    year: i32,
    month: u32,
    day: u32,
    hour: u32,
    minute: u32,
    second: u32,
    milli: u32,
) -> (r: Option<i64>)
{
    let date = chrono::NaiveDate::from_ymd_opt(year, month, day)?;
    let time = chrono::NaiveTime::from_hms_milli_opt(hour, minute, second, milli)?;
    let naive = chrono::NaiveDateTime::new(date, time);
    let local = chrono::Local.from_local_datetime(&naive).single()?;
    Some(local.with_timezone(&chrono::Utc).timestamp_micros())
}

/// Relies on chrono's `Local` time zone (`DateTime::with_timezone`):
/// renders an epoch instant as the machine's local civil time.  chrono
/// documents the field ranges (month 1-12, day 1-31, hour below 24,
/// minute and second below 60, sub-second milliseconds below 2000); the
/// values themselves depend on the configured zone, so nothing more is
/// promised.
#[verifier::external_body]
fn instant_to_local_fields(usecs: i64) -> (r: Option<RawLocalTime>)
    ensures
        r matches Some(c) ==> 1 <= c.month <= 12 && 1 <= c.day <= 31 && c.hour < 24 && c.minute
            < 60 && c.second < 60 && c.milli < 2000,
{
    chrono::DateTime::<chrono::Utc>::from_timestamp_micros(usecs).map(|dt| {
        let l = dt.with_timezone(&chrono::Local);
        RawLocalTime {
            year: l.year(),
            month: l.month(),
            day: l.day(),
            hour: l.hour(),
            minute: l.minute(),
            second: l.second(),
            milli: l.timestamp_subsec_millis(),
        }
    })
}

impl ClockMode {
    /// Reads a hardware-clock calendar value as a UTC instant.  In UTC
    /// mode this is exact calendar arithmetic: it succeeds if and only if
    /// the value names a real day, and yields that day's epoch
    /// microseconds.  In local mode the zone library decides; failures
    /// surface as errors.
    pub fn to_datetime(self, hardware_time: &CalendarTime) -> (r: Result<
        RealtimeInstant,
        CalendarError,
    >)
        ensures
            self is Utc ==> ((r is Ok) <==> valid_calendar(*hardware_time)),
            self is Utc ==> (r matches Ok(i) ==> i.usecs == usecs_of_calendar(*hardware_time)),
            self is Utc ==> (r matches Err(e) ==> e is InvalidDate),
    {
        match self {
            ClockMode::Utc => {
                if is_valid_calendar(hardware_time) {
                    Ok(RealtimeInstant { usecs: usecs_of_utc(hardware_time) })
                } else {
                    Err(CalendarError::InvalidDate)
                }
            },
            ClockMode::Local => {
                match local_fields_to_instant(
                    hardware_time.year,
                    hardware_time.month as u32,
                    hardware_time.day as u32,
                    hardware_time.hour as u32,
                    hardware_time.minute as u32,
                    hardware_time.second as u32,
                    hardware_time.milli as u32,
                ) {
                    Some(v) => instant_from_local_micros(v),
                    None => Err(CalendarError::UnrepresentableLocalTime),
                }
            },
        }
    }

    /// Renders a UTC instant in the hardware clock's time zone.  In UTC
    /// mode this is exact: it succeeds if and only if the instant lies in
    /// the supported window, and the result is the instant's own calendar
    /// day, truncated to milliseconds.  In local mode the zone library
    /// decides; a value outside the supported window is rejected.
    pub fn to_hardware(self, dt: RealtimeInstant) -> (r: Result<CalendarTime, CalendarError>)
        ensures
            self is Utc ==> ((r is Ok) <==> dt.usecs < calendar_limit_usecs()),
            self is Local && dt.usecs > i64::MAX as u64 ==> (r matches Err(e)
                && e is OutOfRange),
            self is Utc ==> (r matches Ok(c) ==> valid_calendar(c) && c.milli <= 999
                && usecs_of_calendar(c) == (dt.usecs as int / 1000) * 1000),
            self is Utc ==> (r matches Err(e) ==> e is OutOfRange),
            r matches Ok(c) ==> wf_calendar(c),
    {
        match self {
            ClockMode::Utc => {
                match utc_of_usecs(dt.usecs) {
                    Some(c) => Ok(c),
                    None => Err(CalendarError::OutOfRange),
                }
            },
            ClockMode::Local => {
                if dt.usecs > i64::MAX as u64 {
                    return Err(CalendarError::OutOfRange);
                }
                match instant_to_local_fields(dt.usecs as i64) {
                    Some(raw) => calendar_from_local(raw),
                    None => Err(CalendarError::UnrepresentableLocalTime),
                }
            },
        }
    }
}

/// The step after a zone decoding of civil fields: a nonnegative
/// microsecond count is an instant, anything before the epoch is not
/// representable.  Fixed for every value the zone library can hand back.
pub fn instant_from_local_micros(usecs: i64) -> (r: Result<RealtimeInstant, CalendarError>)
    ensures
        (r is Ok) <==> usecs >= 0,
        r matches Ok(i) ==> i.usecs == usecs,
        r matches Err(e) ==> e is UnrepresentableLocalTime,
{
    if usecs >= 0 {
        Ok(RealtimeInstant { usecs: usecs as u64 })
    } else {
        Err(CalendarError::UnrepresentableLocalTime)
    }
}

/// The step after rendering an instant in the local zone: the decoded
/// civil fields are accepted exactly when the year lies in the calendar
/// window (the remaining ranges come with the decoding).  Fixed for
/// every value the zone library can hand back.
pub fn calendar_from_local(raw: RawLocalTime) -> (r: Result<CalendarTime, CalendarError>)
    requires
        1 <= raw.month <= 12,
        1 <= raw.day <= 31,
        raw.hour < 24,
        raw.minute < 60,
        raw.second < 60,
        raw.milli < 2000,
    ensures
        (r is Ok) <==> 1970 <= raw.year <= 2099,
        r matches Ok(c) ==> wf_calendar(c) && c.year == raw.year && c.month == raw.month
            && c.day == raw.day && c.hour == raw.hour && c.minute == raw.minute && c.second
            == raw.second && c.milli == raw.milli,
        r matches Err(e) ==> e is OutOfRange,
{
    if 1970 <= raw.year && raw.year <= 2099 {
        Ok(CalendarTime {
            year: raw.year,
            month: raw.month as u8,
            day: raw.day as u8,
            hour: raw.hour as u8,
            minute: raw.minute as u8,
            second: raw.second as u8,
            milli: raw.milli as u16,
        })
    } else {
        Err(CalendarError::OutOfRange)
    }
}

} // verus!
