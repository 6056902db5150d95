use night_kitchen::calendar::CalendarTime;
use night_kitchen::rtcwake::{
    calendar_from_local, classify_rtc_errno, instant_from_local_micros, CalendarError,
    ClockMode, RawLocalTime, RtcError, RtcTime, RtcWakeAlarm, ENOTTY, RTC_IOCTL_IDENTIFIER,
    RTC_WKALRM_RD, RTC_WKALRM_SET,
};
use night_kitchen::time::RealtimeInstant;

fn cal(
    year: i32,
    month: u8,
    day: u8,
    hour: u8,
    minute: u8,
    second: u8,
    milli: u16,
) -> CalendarTime {
    CalendarTime { year, month, day, hour, minute, second, milli }
}

fn rtc(sec: i32, min: i32, hour: i32, mday: i32, mon: i32, year: i32) -> RtcTime {
    RtcTime {
        tm_sec: sec,
        tm_min: min,
        tm_hour: hour,
        tm_mday: mday,
        tm_mon: mon,
        tm_year: year,
        tm_wday: 0,
        tm_yday: 0,
        tm_isdst: 0,
    }
}

#[test]
fn ioctl_constants() {
    assert_eq!(RTC_IOCTL_IDENTIFIER, b'p');
    assert_eq!(RTC_WKALRM_SET, 0x0f);
    assert_eq!(RTC_WKALRM_RD, 0x10);
}

#[test]
fn errno_classification() {
    assert_eq!(classify_rtc_errno(ENOTTY), RtcError::HardwareUnsupported);
    assert_eq!(classify_rtc_errno(5), RtcError::IoError(5));
    assert_eq!(classify_rtc_errno(13), RtcError::IoError(13));
}

#[test]
fn to_chrono_shifts_fields() {
    // 2030-01-01 00:00:00 as the kernel lays it out.
    let t = rtc(0, 0, 0, 1, 0, 130);
    assert_eq!(t.to_chrono(), cal(2030, 1, 1, 0, 0, 0, 0));
}

#[test]
fn from_chrono_shifts_fields() {
    let c = cal(2030, 1, 1, 0, 0, 0, 0);
    assert_eq!(RtcTime::from_chrono(&c), rtc(0, 0, 0, 1, 0, 130));
}

#[test]
fn round_trip_integer_seconds() {
    // Calendar instants with whole seconds survive the RTC layout.
    let samples = [
        cal(1970, 1, 1, 0, 0, 0, 0),
        cal(2024, 2, 29, 23, 59, 59, 0),
        cal(2099, 12, 31, 12, 34, 56, 0),
    ];
    for c in samples {
        assert_eq!(RtcTime::from_chrono(&c).to_chrono(), c);
    }
}

#[test]
fn leap_second_encodes_as_sixty() {
    // Sub-second part past 999 ms means a leap second: written as second
    // 60, and read back at 999 ms or later.
    let c = cal(2025, 6, 30, 23, 59, 59, 1500);
    let t = RtcTime::from_chrono(&c);
    assert_eq!(t.tm_sec, 60);
    let back = t.to_chrono();
    assert!(back.milli >= 999);
    assert_eq!(back.second, 59);
    assert_eq!(back.hour, 23);
    assert_eq!(back.minute, 59);
}

#[test]
fn alarm_accessors() {
    let mut alarm = RtcWakeAlarm { enabled: false, pending: true, time: rtc(0, 0, 0, 1, 0, 70) };
    assert!(!alarm.enabled());
    alarm.set_enabled(true);
    assert!(alarm.enabled());
    assert!(alarm.pending);
    let c = cal(2031, 7, 15, 8, 30, 0, 0);
    alarm.set_time(&c);
    assert_eq!(alarm.time(), c);
    assert!(alarm.pending);
}

#[test]
fn utc_mode_to_datetime_is_exact() {
    let c = cal(2033, 5, 18, 3, 33, 20, 0);
    let i = ClockMode::Utc.to_datetime(&c).unwrap();
    assert_eq!(i.usecs, 2_000_000_000_000_000);
}

#[test]
fn utc_mode_rejects_invalid_date() {
    let c = cal(2023, 2, 30, 0, 0, 0, 0);
    assert_eq!(ClockMode::Utc.to_datetime(&c), Err(CalendarError::InvalidDate));
}

#[test]
fn utc_mode_to_hardware_is_exact() {
    let i = RealtimeInstant { usecs: 2_000_000_000_000_000 };
    let c = ClockMode::Utc.to_hardware(i).unwrap();
    assert_eq!(c, cal(2033, 5, 18, 3, 33, 20, 0));
}

#[test]
fn utc_mode_to_hardware_rejects_out_of_range() {
    let i = RealtimeInstant { usecs: 4_102_444_800_000_000 };
    assert_eq!(ClockMode::Utc.to_hardware(i), Err(CalendarError::OutOfRange));
}

#[test]
fn local_mode_round_trip_is_close() {
    // The local zone is whatever the machine has; the round trip must
    // land within a day of the original instant (zone offsets are far
    // smaller than that).
    let i = RealtimeInstant { usecs: 1_900_000_000_000_000 };
    let c = ClockMode::Local.to_hardware(i).unwrap();
    assert!((2029..=2031).contains(&c.year));
    let back = ClockMode::Local.to_datetime(&c).unwrap();
    let diff = (back.usecs as i128 - i.usecs as i128).unsigned_abs();
    assert!(diff < 86_400_000_000, "round trip drifted by {diff} microseconds");
}

#[test]
fn local_mode_rejects_nonsense_fields() {
    let c = cal(2030, 13, 1, 0, 0, 0, 0);
    assert_eq!(
        ClockMode::Local.to_datetime(&c),
        Err(CalendarError::UnrepresentableLocalTime)
    );
}

#[test]
fn local_micros_accepts_the_epoch_and_after() {
    assert_eq!(instant_from_local_micros(0).unwrap().usecs, 0);
    assert_eq!(instant_from_local_micros(5_000_000).unwrap().usecs, 5_000_000);
    assert_eq!(
        instant_from_local_micros(-1),
        Err(CalendarError::UnrepresentableLocalTime)
    );
}

#[test]
fn local_fields_accepted_inside_the_window() {
    let raw = RawLocalTime { year: 2030, month: 6, day: 1, hour: 12, minute: 30, second: 15, milli: 250 };
    let c = calendar_from_local(raw).unwrap();
    assert_eq!(c, cal(2030, 6, 1, 12, 30, 15, 250));

    let early = RawLocalTime { year: 1969, ..raw };
    assert_eq!(calendar_from_local(early), Err(CalendarError::OutOfRange));
    let late = RawLocalTime { year: 2100, ..raw };
    assert_eq!(calendar_from_local(late), Err(CalendarError::OutOfRange));
}
