use night_kitchen::inhibit::{InhibitorLock, InhibitorLockMode};
use night_kitchen::planner::{plan_wake_alarm, AlarmPlan, TimerElapsation};
use night_kitchen::power_monitor::{
    MonitorSignal, MonitorState, PowerEvent, PowerMonitor,
};
use night_kitchen::rtcwake::{ClockMode, RtcTime, RtcWakeAlarm};
use night_kitchen::time::{ClockSnapshot, RealtimeInstant};

fn lock(fd: i32) -> InhibitorLock {
    InhibitorLock {
        fd,
        what: String::from("sleep:shutdown"),
        mode: InhibitorLockMode::Delay,
    }
}

fn held_monitor(fd: i32) -> PowerMonitor {
    let mut m = PowerMonitor::new(
        String::from("Night Kitchen Scheduler"),
        String::from("Scheduling next system wakeup"),
    );
    assert!(m.needs_inhibitor());
    m.note_lock(lock(fd));
    m
}

#[test]
fn starts_without_a_lock() {
    let m = PowerMonitor::new(String::from("who"), String::from("why"));
    assert_eq!(m.state, MonitorState::IdleNoLock);
    assert!(m.inhibitor.is_none());
    assert!(m.needs_inhibitor());
    assert_eq!(m.inhibitor_source(), "who");
    assert_eq!(m.inhibitor_reason(), "why");
}

#[test]
fn noting_a_lock_reaches_idle_held() {
    let m = held_monitor(7);
    assert_eq!(m.state, MonitorState::IdleHeld);
    assert_eq!(m.inhibitor.as_ref().unwrap().fd, 7);
    assert!(!m.needs_inhibitor());
}

#[test]
fn sleep_begin_delivers_then_releases() {
    let mut m = held_monitor(7);
    let d = m.handle_signal(MonitorSignal::PrepareForSleep(true));
    assert_eq!(d.callback, Some(PowerEvent::PreSleep));
    assert_eq!(d.released.unwrap().fd, 7);
    assert!(!d.needs_take);
    assert!(!d.anomaly);
    assert_eq!(m.state, MonitorState::Sleeping);
    assert!(m.inhibitor.is_none());
}

#[test]
fn sleep_cycle_conserves_one_descriptor() {
    // Idle-held holds exactly one descriptor; the sleep begin edge
    // surrenders it, the end edge asks for a fresh one, and recording it
    // restores the count.
    let mut m = held_monitor(7);
    assert!(m.inhibitor.is_some());

    let begin = m.handle_signal(MonitorSignal::PrepareForSleep(true));
    assert!(begin.released.is_some());
    assert!(m.inhibitor.is_none());

    let end = m.handle_signal(MonitorSignal::PrepareForSleep(false));
    assert_eq!(end.callback, Some(PowerEvent::PostSleep));
    assert!(end.needs_take);
    assert!(end.released.is_none());
    assert_eq!(m.state, MonitorState::IdleHeld);
    assert!(m.needs_inhibitor());

    m.note_lock(lock(9));
    assert_eq!(m.inhibitor.as_ref().unwrap().fd, 9);
    assert!(!m.needs_inhibitor());
}

#[test]
fn take_is_idempotent_when_already_held() {
    // A sleep end edge while the lock is somehow still held must not ask
    // for another descriptor.
    let mut m = held_monitor(7);
    let d = m.handle_signal(MonitorSignal::PrepareForSleep(false));
    assert_eq!(d.callback, Some(PowerEvent::PostSleep));
    assert!(!d.needs_take);
    assert_eq!(m.inhibitor.as_ref().unwrap().fd, 7);
}

#[test]
fn shutdown_begin_delivers_then_releases() {
    let mut m = held_monitor(3);
    let d = m.handle_signal(MonitorSignal::PrepareForShutdown(true));
    assert_eq!(d.callback, Some(PowerEvent::PreShutdown));
    assert_eq!(d.released.unwrap().fd, 3);
    assert!(!d.needs_take);
    assert_eq!(m.state, MonitorState::ShuttingDown);
    assert!(m.inhibitor.is_none());
    assert!(!m.needs_inhibitor());
}

#[test]
fn shutdown_end_is_an_anomaly() {
    let mut m = held_monitor(3);
    m.handle_signal(MonitorSignal::PrepareForShutdown(true));
    let d = m.handle_signal(MonitorSignal::PrepareForShutdown(false));
    assert!(d.anomaly);
    assert!(d.callback.is_none());
    assert!(d.released.is_none());
    assert!(!d.needs_take);
    assert_eq!(m.state, MonitorState::ShuttingDown);
}

#[test]
fn scheduler_happy_path() {
    // The shutdown signal arrives while idle-held: the monitor hands out
    // the PreShutdown event and the lock to close; the planning that the
    // event triggers picks the earliest activation and asks for a write.
    let mut m = held_monitor(11);
    let d = m.handle_signal(MonitorSignal::PrepareForShutdown(true));
    assert_eq!(d.callback, Some(PowerEvent::PreShutdown));

    // The callback's work: plan the wake alarm.
    let timer_a = TimerElapsation {
        next_realtime_usecs: 2_000_000_000_000_000,
        next_monotonic_usecs: 0,
    };
    let timer_b = TimerElapsation {
        next_realtime_usecs: 0,
        next_monotonic_usecs: 3_000_000_000_000_000,
    };
    let snap = ClockSnapshot { realtime_usecs: 1_000_000_000_000, monotonic_usecs: 0 };
    // Timer B shifts to 3_001_000_000_000_000; timer A is earlier.
    let current = RtcWakeAlarm {
        enabled: false,
        pending: false,
        time: RtcTime {
            tm_sec: 0,
            tm_min: 0,
            tm_hour: 0,
            tm_mday: 1,
            tm_mon: 0,
            tm_year: 70,
            tm_wday: 0,
            tm_yday: 0,
            tm_isdst: 0,
        },
    };
    match plan_wake_alarm(&vec![timer_a, timer_b], &snap, ClockMode::Utc, &current) {
        Ok(Some(AlarmPlan::Write(a))) => {
            assert!(a.enabled);
            let expected = ClockMode::Utc
                .to_hardware(RealtimeInstant { usecs: 2_000_000_000_000_000 })
                .unwrap();
            assert_eq!(a.time, RtcTime::from_chrono(&expected));
        },
        other => panic!("expected a write, got {other:?}"),
    }

    // Only after the callback's work is done does the shell close the
    // released descriptor.
    assert_eq!(d.released.unwrap().fd, 11);
    assert!(m.inhibitor.is_none());
}
