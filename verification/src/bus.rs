//! The bus addresses the daemons talk to.  Power transitions must go
//! through the login manager — its PowerOff and Suspend are the graceful
//! ones that honor inhibitor locks — so the addresses are pinned here,
//! where their contracts can be checked.

use vstd::prelude::*;

verus! {

/// A well-known bus endpoint: service name, object path, and the RPC
/// timeout every call to it uses.
#[derive(Debug, Clone, Copy)]
pub struct BusEndpoint {
    /// The well-known service name.
    pub service: &'static str,
    /// The manager object's path.
    pub object_path: &'static str,
    /// Per-call RPC timeout, in milliseconds.
    pub call_timeout_millis: u64,
}

/// The login manager's endpoint: Inhibit, PowerOff, Suspend,
/// ListSessions, and the PrepareForSleep and PrepareForShutdown signals
/// live here.
pub fn login_manager() -> (r: BusEndpoint)
    ensures
        r.service@ == ("org.freedesktop.login1")@,
        r.object_path@ == ("/org/freedesktop/login1")@,
        r.call_timeout_millis == 500,
{
    BusEndpoint {
        service: "org.freedesktop.login1",
        object_path: "/org/freedesktop/login1",
        call_timeout_millis: 500,
    }
}

/// The unit manager's endpoint: Subscribe, StartUnit, the JobRemoved
/// signal, and the per-timer next-elapse properties live here.  Its
/// power methods are the abrupt ones; they are never to be called.
pub fn systemd_manager() -> (r: BusEndpoint)
    ensures
        r.service@ == ("org.freedesktop.systemd1")@,
        r.object_path@ == ("/org/freedesktop/systemd1")@,
        r.call_timeout_millis == 500,
{
    BusEndpoint {
        service: "org.freedesktop.systemd1",
        object_path: "/org/freedesktop/systemd1",
        call_timeout_millis: 500,
    }
}

/// The timer units the scheduler watches by default.
pub fn default_timer_units() -> (r: Vec<&'static str>)
    ensures
        r@.len() == 2,
        r@[0]@ == ("night-kitchen-daily.timer")@,
        r@[1]@ == ("night-kitchen-weekly.timer")@,
{
    let mut units: Vec<&'static str> = Vec::new();
    units.push("night-kitchen-daily.timer");
    units.push("night-kitchen-weekly.timer");
    units
}

} // verus!
