use night_kitchen::attribution::{
    caused_boot, caused_wake, follow_up_action, PowerAction, MIN_INNOCENT_UPTIME_SECS,
    MIN_INNOCENT_WAKETIME_MILLIS,
};
use night_kitchen::store::encode_resume_record;

fn wake(start_millis: i64, record: Option<&str>) -> bool {
    match record {
        None => caused_wake(start_millis, None),
        Some(s) => caused_wake(start_millis, Some(&s.as_bytes().to_vec())),
    }
}

#[test]
fn thresholds() {
    assert_eq!(MIN_INNOCENT_UPTIME_SECS, 300);
    assert_eq!(MIN_INNOCENT_WAKETIME_MILLIS, 60_000);
}

#[test]
fn short_uptime_means_we_booted() {
    assert!(caused_boot(Some(200)));
    assert!(caused_boot(Some(0)));
    assert!(caused_boot(Some(299)));
}

#[test]
fn long_uptime_means_we_did_not_boot() {
    assert!(!caused_boot(Some(300)));
    assert!(!caused_boot(Some(400)));
    assert!(!caused_boot(Some(3600)));
}

#[test]
fn unknown_uptime_means_no_information() {
    assert!(!caused_boot(None));
}

#[test]
fn absent_record_means_no_wake() {
    assert!(!wake(1_000_000, None));
}

#[test]
fn fresh_record_means_we_woke() {
    // The record was written 30 seconds before the runner started.
    let start: i64 = 1_700_000_000_000;
    let record = encode_resume_record(start - 30_000);
    assert!(caused_wake(start, Some(&record)));
}

#[test]
fn stale_record_means_we_did_not_wake() {
    // The record is two minutes old.
    let start: i64 = 1_700_000_000_000;
    let record = encode_resume_record(start - 120_000);
    assert!(!caused_wake(start, Some(&record)));
}

#[test]
fn waketime_threshold_is_strict() {
    let start: i64 = 1_700_000_000_000;
    let at_threshold = encode_resume_record(start - 60_000);
    assert!(!caused_wake(start, Some(&at_threshold)));
    let just_inside = encode_resume_record(start - 59_999);
    assert!(caused_wake(start, Some(&just_inside)));
}

#[test]
fn record_newer_than_start_means_we_woke() {
    // The scheduler's write raced the runner's start and landed after it.
    let start: i64 = 1_700_000_000_000;
    let record = encode_resume_record(start + 5_000);
    assert!(caused_wake(start, Some(&record)));
}

#[test]
fn corrupt_record_means_no_wake() {
    assert!(!wake(1_700_000_000_000, Some("not a number")));
    assert!(!wake(1_700_000_000_000, Some("")));
    assert!(!wake(1_700_000_000_000, Some("12.5")));
}

#[test]
fn precedence_power_off_beats_suspend() {
    assert_eq!(follow_up_action(true, true), PowerAction::PowerOff);
    assert_eq!(follow_up_action(true, false), PowerAction::PowerOff);
    assert_eq!(follow_up_action(false, true), PowerAction::Suspend);
    assert_eq!(follow_up_action(false, false), PowerAction::NoAction);
}

#[test]
fn attribution_truth_table() {
    let start: i64 = 1_700_000_000_000;
    let fresh = encode_resume_record(start - 30_000);
    let stale = encode_resume_record(start - 120_000);
    let newer = encode_resume_record(start + 5_000);

    // Uptime 200 s, resume file absent: shut down.
    let boot = caused_boot(Some(200));
    let wake = caused_wake(start, None);
    assert_eq!(follow_up_action(boot, wake), PowerAction::PowerOff);

    // Uptime 400 s, resume file 30 s old: suspend.
    let boot = caused_boot(Some(400));
    let wake = caused_wake(start, Some(&fresh));
    assert_eq!(follow_up_action(boot, wake), PowerAction::Suspend);

    // Uptime 400 s, resume file 120 s old: no action.
    let boot = caused_boot(Some(400));
    let wake = caused_wake(start, Some(&stale));
    assert_eq!(follow_up_action(boot, wake), PowerAction::NoAction);

    // Uptime 400 s, resume file newer than start: suspend.
    let boot = caused_boot(Some(400));
    let wake = caused_wake(start, Some(&newer));
    assert_eq!(follow_up_action(boot, wake), PowerAction::Suspend);

    // Uptime 200 s, resume file 30 s old: uptime dominates, shut down.
    let boot = caused_boot(Some(200));
    let wake = caused_wake(start, Some(&fresh));
    assert_eq!(follow_up_action(boot, wake), PowerAction::PowerOff);
}

#[test]
fn runner_on_user_session_does_nothing() {
    // An hour of uptime and no resume file: the payload runs, the
    // machine stays up.
    let boot = caused_boot(Some(3600));
    let wake = caused_wake(1_700_000_000_000, None);
    assert_eq!(follow_up_action(boot, wake), PowerAction::NoAction);
}

#[test]
fn runner_on_clean_boot_powers_off() {
    let boot = caused_boot(Some(100));
    let wake = caused_wake(1_700_000_000_000, None);
    assert_eq!(follow_up_action(boot, wake), PowerAction::PowerOff);
}
