use night_kitchen::bus::{default_timer_units, login_manager, systemd_manager};
use night_kitchen::inhibit::{inhibit_what, InhibitorLockMode, InhibitorLockType};
use night_kitchen::session::{has_other_sessions_from, has_sessions_from};
use night_kitchen::starter::{start_unit_mode, UnitStarter};

#[test]
fn starter_waits_for_its_unit() {
    let mut s = UnitStarter::new(String::from("echo.service"));
    assert!(!s.is_complete());

    // Another unit's job finishing changes nothing; the match stays.
    let keep = s.handle_job_removed(&String::from("other.service"));
    assert!(keep);
    assert!(!s.is_complete());

    // The awaited unit's job finishing completes the wait and drops the
    // match.
    let keep = s.handle_job_removed(&String::from("echo.service"));
    assert!(!keep);
    assert!(s.is_complete());
}

#[test]
fn start_mode_is_fail() {
    assert_eq!(start_unit_mode(), "fail");
}

#[test]
fn lock_mode_spellings() {
    assert_eq!(InhibitorLockMode::Block.mode_str(), "block");
    assert_eq!(InhibitorLockMode::Delay.mode_str(), "delay");
}

#[test]
fn lock_type_spellings() {
    assert_eq!(InhibitorLockType::Sleep.type_str(), "sleep");
    assert_eq!(InhibitorLockType::Shutdown.type_str(), "shutdown");
    assert_eq!(InhibitorLockType::Idle.type_str(), "idle");
    assert_eq!(InhibitorLockType::HandlePowerKey.type_str(), "handle-power-key");
    assert_eq!(InhibitorLockType::HandleSuspendKey.type_str(), "handle-suspend-key");
    assert_eq!(InhibitorLockType::HandleHibernateKey.type_str(), "handle-hibernate-key");
    assert_eq!(InhibitorLockType::HandleLidSwitch.type_str(), "handle-lid-switch");
}

#[test]
fn what_joins_with_colons() {
    assert_eq!(
        inhibit_what(&vec![InhibitorLockType::Sleep, InhibitorLockType::Shutdown]),
        "sleep:shutdown"
    );
    assert_eq!(inhibit_what(&vec![InhibitorLockType::Idle]), "idle");
    assert_eq!(inhibit_what(&vec![]), "");
}

#[test]
fn session_listing_decisions() {
    let ids = vec![String::from("c1"), String::from("17")];
    assert!(has_sessions_from(&ids));
    assert!(!has_sessions_from(&vec![]));

    // A listing with a session besides ours counts as other sessions.
    let ours = String::from("17");
    assert!(has_other_sessions_from(&ids, Some(&ours)));

    // A listing holding only our own session does not.
    let only_ours = vec![String::from("17")];
    assert!(!has_other_sessions_from(&only_ours, Some(&ours)));

    // Even a single foreign session counts, whether or not ours appears.
    let foreign = vec![String::from("c1")];
    assert!(has_other_sessions_from(&foreign, Some(&ours)));

    // An empty listing never does.
    assert!(!has_other_sessions_from(&vec![], Some(&ours)));

    // With our own ID unknown, any session at all counts.
    assert!(has_other_sessions_from(&ids, None));
    assert!(!has_other_sessions_from(&vec![], None));
}

#[test]
fn power_goes_through_the_login_manager() {
    // The graceful PowerOff and Suspend live on the login manager; the
    // unit manager's are abrupt and must never be addressed for power.
    let login = login_manager();
    assert_eq!(login.service, "org.freedesktop.login1");
    assert_eq!(login.object_path, "/org/freedesktop/login1");
    assert_eq!(login.call_timeout_millis, 500);

    let systemd = systemd_manager();
    assert_eq!(systemd.service, "org.freedesktop.systemd1");
    assert_eq!(systemd.object_path, "/org/freedesktop/systemd1");
    assert_eq!(systemd.call_timeout_millis, 500);

    assert_ne!(login.service, systemd.service);
}

#[test]
fn default_timers() {
    let units = default_timer_units();
    assert_eq!(units, vec!["night-kitchen-daily.timer", "night-kitchen-weekly.timer"]);
}
