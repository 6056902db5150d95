//! The power monitor: the state machine behind the freedesktop delay-lock
//! pattern, which brackets sleep and shutdown transitions.
//!
//! The monitor is pure: it turns each login-manager signal into a new
//! state and a directive.  The process shell around it pumps the bus,
//! performs the directive — deliver the callback event first, then close
//! the released descriptor or acquire a fresh lock — and reports an
//! acquired lock back through [`PowerMonitor::note_lock`].

use vstd::prelude::*;
use crate::inhibit::{InhibitorLock, InhibitorLockMode};

verus! {

/// A power event reported to the callback.
#[derive(Debug, Copy, Clone, Eq, PartialEq, Structural)]
pub enum PowerEvent {
    /// The system is about to suspend.
    PreSleep,
    /// The system has resumed from suspend.
    PostSleep,
    /// The system is about to shut down or reboot.
    PreShutdown,
}

/// A login-manager signal, with its boolean argument: true means the
/// transition begins, false that it completed or was aborted.
#[derive(Debug, Copy, Clone, Eq, PartialEq, Structural)]
pub enum MonitorSignal {
    PrepareForSleep(bool),
    PrepareForShutdown(bool),
}

/// Where the monitor stands in the delay-lock cycle.
#[derive(Debug, Copy, Clone, Eq, PartialEq, Structural)]
pub enum MonitorState {
    /// Started, inhibitor not yet acquired.
    IdleNoLock,
    /// Holding the delay lock, awaiting a transition.
    IdleHeld,
    /// A sleep transition is under way; the lock is released.
    Sleeping,
    /// A shutdown transition is under way; the lock is released and the
    /// process is expected to die with the system.
    ShuttingDown,
}

/// What the shell must do after a signal, in this order: deliver the
/// callback event, close the released lock's descriptor, and, when asked,
/// acquire a fresh inhibitor lock and report it via `note_lock`.  The
/// callback runs before the descriptor is closed; that ordering is what
/// keeps the delay window open until the callback's work is done.
#[derive(Debug)]
pub struct MonitorDirective {
    /// The event to hand to the callback, if any.
    pub callback: Option<PowerEvent>,
    /// The lock whose descriptor must now be closed, if any.
    pub released: Option<InhibitorLock>,
    /// Whether a fresh delay lock must be acquired.
    pub needs_take: bool,
    /// Whether the signal was out of protocol and worth a log line.
    pub anomaly: bool,
}

/// The power monitor's whole state: the machine state, the lock record it
/// holds, and the strings it acquires locks with.
#[derive(Debug)]
pub struct PowerMonitor {
    /// Where the delay-lock cycle stands.
    pub state: MonitorState,
    /// The lock currently held, if any.
    pub inhibitor: Option<InhibitorLock>,
    /// Who takes the locks (the `who` argument of Inhibit).
    pub inhibitor_source: String,
    /// Why the locks are taken (the `why` argument of Inhibit).
    pub inhibitor_reason: String,
}

impl PowerMonitor {
    /// How many inhibitor descriptors the monitor accounts for.
    pub open spec fn lock_count(self) -> nat {
        if self.inhibitor is Some {
            1
        } else {
            0
        }
    }

    /// The monitor's invariant: a lock is held only while idle-held, and
    /// any held lock is a delay lock covering sleep and shutdown.
    pub open spec fn inv(self) -> bool {
        &&& self.inhibitor is Some ==> self.state is IdleHeld
        &&& self.inhibitor matches Some(l) ==> l.mode is Delay && l.what@ == ("sleep:shutdown")@
    }

    /// The transition function: the monitor after a signal, and the
    /// directive the shell must carry out.
    pub open spec fn spec_step(self, sig: MonitorSignal) -> (PowerMonitor, MonitorDirective) {
        match sig {
            MonitorSignal::PrepareForSleep(true) => (
                PowerMonitor { state: MonitorState::Sleeping, inhibitor: None, ..self },
                MonitorDirective {
                    callback: Some(PowerEvent::PreSleep),
                    released: self.inhibitor,
                    needs_take: false,
                    anomaly: false,
                },
            ),
            MonitorSignal::PrepareForSleep(false) => (
                PowerMonitor { state: MonitorState::IdleHeld, ..self },
                MonitorDirective {
                    callback: Some(PowerEvent::PostSleep),
                    released: None,
                    needs_take: self.inhibitor is None,
                    anomaly: false,
                },
            ),
            MonitorSignal::PrepareForShutdown(true) => (
                PowerMonitor { state: MonitorState::ShuttingDown, inhibitor: None, ..self },
                MonitorDirective {
                    callback: Some(PowerEvent::PreShutdown),
                    released: self.inhibitor,
                    needs_take: false,
                    anomaly: false,
                },
            ),
            MonitorSignal::PrepareForShutdown(false) => (
                self,
                MonitorDirective {
                    callback: None,
                    released: None,
                    needs_take: false,
                    anomaly: true,
                },
            ),
        }
    }

    /// A monitor that has not yet acquired its lock.
    pub fn new(inhibitor_source: String, inhibitor_reason: String) -> (m: PowerMonitor)
        ensures
            m.state is IdleNoLock,
            m.inhibitor is None,
            m.inhibitor_source@ == inhibitor_source@,
            m.inhibitor_reason@ == inhibitor_reason@,
            m.inv(),
            m.lock_count() == 0,
    {
        PowerMonitor {
            state: MonitorState::IdleNoLock,
            inhibitor: None,
            inhibitor_source,
            inhibitor_reason,
        }
    }

    /// Who locks are taken as.
    pub fn inhibitor_source(&self) -> (r: &String)
        ensures
            r@ == self.inhibitor_source@,
    {
        &self.inhibitor_source
    }

    /// Why locks are taken.
    pub fn inhibitor_reason(&self) -> (r: &String)
        ensures
            r@ == self.inhibitor_reason@,
    {
        &self.inhibitor_reason
    }

    /// Whether the shell should acquire the inhibitor now: the monitor is
    /// in an idle state and holds no lock.  True at start and after a
    /// failed or not-yet-completed take.
    pub fn needs_inhibitor(&self) -> (r: bool)
        ensures
            r == ((self.state is IdleNoLock || self.state is IdleHeld) && self.inhibitor
                is None),
    {
        match self.state {
            MonitorState::IdleNoLock | MonitorState::IdleHeld => self.inhibitor.is_none(),
            _ => false,
        }
    }

    /// Records a freshly acquired delay lock.  A take is a no-op when a
    /// lock is already held, so this demands that none is.
    pub fn note_lock(&mut self, lock: InhibitorLock)
        requires
            old(self).inv(),
            old(self).inhibitor is None,
            old(self).state is IdleNoLock || old(self).state is IdleHeld,
            lock.mode is Delay,
            lock.what@ == ("sleep:shutdown")@,
        ensures
            *final(self) == spec_with_lock(*old(self), lock),
            final(self).inv(),
            final(self).state is IdleHeld,
            final(self).inhibitor == Some(lock),
            final(self).lock_count() == 1,
            final(self).inhibitor_source == old(self).inhibitor_source,
            final(self).inhibitor_reason == old(self).inhibitor_reason,
    {
        self.state = MonitorState::IdleHeld;
        self.inhibitor = Some(lock);
    }

    /// Steps the machine on a login-manager signal and says what the
    /// shell must do.  The result is exactly `spec_step`: the begin edges
    /// deliver their event and surrender the lock, the sleep end edge
    /// delivers its event and asks for a fresh lock unless one is somehow
    /// still held, and a shutdown end edge is out of protocol.
    pub fn handle_signal(&mut self, sig: MonitorSignal) -> (d: MonitorDirective)
        requires
            old(self).inv(),
        ensures
            *final(self) == old(self).spec_step(sig).0,
            d == old(self).spec_step(sig).1,
            final(self).inv(),
    {
        match sig {
            MonitorSignal::PrepareForSleep(true) => {
                self.state = MonitorState::Sleeping;
                let released = self.inhibitor.take();
                MonitorDirective {
                    callback: Some(PowerEvent::PreSleep),
                    released,
                    needs_take: false,
                    anomaly: false,
                }
            },
            MonitorSignal::PrepareForSleep(false) => {
                self.state = MonitorState::IdleHeld;
                let needs_take = self.inhibitor.is_none();
                MonitorDirective {
                    callback: Some(PowerEvent::PostSleep),
                    released: None,
                    needs_take,
                    anomaly: false,
                }
            },
            MonitorSignal::PrepareForShutdown(true) => {
                self.state = MonitorState::ShuttingDown;
                let released = self.inhibitor.take();
                MonitorDirective {
                    callback: Some(PowerEvent::PreShutdown),
                    released,
                    needs_take: false,
                    anomaly: false,
                }
            },
            MonitorSignal::PrepareForShutdown(false) => {
                MonitorDirective { callback: None, released: None, needs_take: false, anomaly: true }
            },
        }
    }
}

/// Inhibitor conservation through a sleep cycle: while idle-held exactly
/// one descriptor is accounted for; the sleep begin edge surrenders it, so
/// the count is zero before the end edge arrives; the end edge returns the
/// machine to idle-held and asks for a fresh lock, and recording that lock
/// brings the count back to one.
pub proof fn lemma_inhibitor_conservation(m: PowerMonitor, fresh: InhibitorLock)
    requires
        m.inv(),
        m.state is IdleHeld,
        m.inhibitor is Some,
        fresh.mode is Delay,
        fresh.what@ == ("sleep:shutdown")@,
    ensures
        m.lock_count() == 1,
        m.spec_step(MonitorSignal::PrepareForSleep(true)).0.lock_count() == 0,
        m.spec_step(MonitorSignal::PrepareForSleep(true)).1.released == m.inhibitor,
        m.spec_step(MonitorSignal::PrepareForSleep(true)).0.spec_step(
            MonitorSignal::PrepareForSleep(false),
        ).0.state is IdleHeld,
        m.spec_step(MonitorSignal::PrepareForSleep(true)).0.spec_step(
            MonitorSignal::PrepareForSleep(false),
        ).1.needs_take,
        spec_with_lock(
            m.spec_step(MonitorSignal::PrepareForSleep(true)).0.spec_step(
                MonitorSignal::PrepareForSleep(false),
            ).0,
            fresh,
        ).lock_count() == 1,
{
}

/// A take is a no-op when a lock is already held: the sleep end edge on a
/// monitor that still holds its lock neither asks for a fresh one nor
/// replaces the one held, so no descriptor leaks.
pub proof fn lemma_take_idempotent(m: PowerMonitor)
    requires
        m.inv(),
        m.inhibitor is Some,
    ensures
        !m.spec_step(MonitorSignal::PrepareForSleep(false)).1.needs_take,
        m.spec_step(MonitorSignal::PrepareForSleep(false)).0.inhibitor == m.inhibitor,
        m.spec_step(MonitorSignal::PrepareForSleep(false)).0.lock_count() == m.lock_count(),
{
}

/// The monitor after `note_lock` records a lock.
pub open spec fn spec_with_lock(m: PowerMonitor, lock: InhibitorLock) -> PowerMonitor {
    PowerMonitor { state: MonitorState::IdleHeld, inhibitor: Some(lock), ..m }
}

} // verus!
