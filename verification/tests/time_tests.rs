use night_kitchen::time::{
    from_timestamp_usecs, monotonic_to_realtime, monotonic_to_realtime_at,
    read_clock_snapshot, realtime_now, ClockSnapshot, MonotonicInstant, RealtimeInstant,
};

#[test]
fn timestamp_wrapping_is_exact() {
    assert_eq!(from_timestamp_usecs(0).usecs, 0);
    assert_eq!(from_timestamp_usecs(2_000_000_000_000_000).usecs, 2_000_000_000_000_000);
}

#[test]
fn millis_truncate() {
    assert_eq!(RealtimeInstant { usecs: 1_999 }.millis_i64(), 1);
    assert_eq!(RealtimeInstant { usecs: 0 }.millis_i64(), 0);
    assert_eq!(RealtimeInstant { usecs: 123_456_789 }.millis_i64(), 123_456);
}

#[test]
fn offset_shift_is_exact() {
    let snap = ClockSnapshot { realtime_usecs: 1_000_000_000, monotonic_usecs: 2_000_000 };
    let m = MonotonicInstant { usecs: 5_000_000 };
    let r = monotonic_to_realtime_at(m, &snap).unwrap();
    assert_eq!(r.usecs, 5_000_000 + 1_000_000_000 - 2_000_000);
}

#[test]
fn shift_below_epoch_fails() {
    let snap = ClockSnapshot { realtime_usecs: 0, monotonic_usecs: 10_000_000 };
    let m = MonotonicInstant { usecs: 5_000_000 };
    assert!(monotonic_to_realtime_at(m, &snap).is_none());
}

#[test]
fn shift_past_range_fails() {
    let snap = ClockSnapshot { realtime_usecs: i64::MAX, monotonic_usecs: 0 };
    let m = MonotonicInstant { usecs: u64::MAX };
    assert!(monotonic_to_realtime_at(m, &snap).is_none());
}

#[test]
fn clocks_are_readable_and_sane() {
    let snap = read_clock_snapshot().expect("both clocks must be readable");
    // The wall clock lies after 2020-01-01 on any sanely configured
    // machine, and the monotonic clock is small by comparison.
    assert!(snap.realtime_usecs > 1_577_836_800_000_000);
    assert!(snap.monotonic_usecs >= 0);
    assert!(snap.monotonic_usecs < snap.realtime_usecs);

    let now = realtime_now().expect("the wall clock must be readable");
    assert!(now.usecs > 1_577_836_800_000_000);
}

#[test]
fn monotonic_conversion_lands_near_now() {
    let snap = read_clock_snapshot().unwrap();
    let m = MonotonicInstant { usecs: snap.monotonic_usecs as u64 };
    let r = monotonic_to_realtime(m).expect("conversion must succeed for the present");
    // Converting "now on the monotonic clock" must land within a minute
    // of "now on the wall clock".
    let diff = (r.usecs as i128 - snap.realtime_usecs as i128).unsigned_abs();
    assert!(diff < 60_000_000, "conversion drifted by {diff} microseconds");
}
