//! Inhibitor locks: the kinds and modes the login manager understands,
//! and the record of an acquired lock.

use vstd::prelude::*;
use vstd::string::StringExecFns;

verus! {

/// How strongly an inhibitor lock holds up the inhibited operations.
#[derive(Debug, Eq, PartialEq, Copy, Clone, Structural)]
pub enum InhibitorLockMode {
    /// Blocking locks prevent the inhibited operations entirely while
    /// held.
    Block,
    /// Delay locks postpone the operation briefly, up to the manager's
    /// timeout.
    Delay,
}

/// The wire spelling of a lock mode.
pub open spec fn mode_str_view(m: InhibitorLockMode) -> Seq<char> {
    match m {
        InhibitorLockMode::Block => ("block")@,
        InhibitorLockMode::Delay => ("delay")@,
    }
}

impl InhibitorLockMode {
    /// The string the login manager expects for this mode.
    pub fn mode_str(&self) -> (r: &'static str)
        ensures
            r@ == mode_str_view(*self),
    {
        match *self {
            InhibitorLockMode::Block => "block",
            InhibitorLockMode::Delay => "delay",
        }
    }
}

/// The operations an inhibitor lock can cover.
#[derive(Debug, Eq, PartialEq, Copy, Clone, Structural)]
pub enum InhibitorLockType {
    Sleep,
    Shutdown,
    Idle,
    HandlePowerKey,
    HandleSuspendKey,
    HandleHibernateKey,
    HandleLidSwitch,
}

/// The wire spelling of a lock type.
pub open spec fn type_str_view(t: InhibitorLockType) -> Seq<char> {
    match t {
        InhibitorLockType::Sleep => ("sleep")@,
        InhibitorLockType::Shutdown => ("shutdown")@,
        InhibitorLockType::Idle => ("idle")@,
        InhibitorLockType::HandlePowerKey => ("handle-power-key")@,
        InhibitorLockType::HandleSuspendKey => ("handle-suspend-key")@,
        InhibitorLockType::HandleHibernateKey => ("handle-hibernate-key")@,
        InhibitorLockType::HandleLidSwitch => ("handle-lid-switch")@,
    }
}

impl InhibitorLockType {
    /// The string the login manager expects for this lock type.
    pub fn type_str(&self) -> (r: &'static str)
        ensures
            r@ == type_str_view(*self),
    {
        match *self {
            InhibitorLockType::Sleep => "sleep",
            InhibitorLockType::Shutdown => "shutdown",
            InhibitorLockType::Idle => "idle",
            InhibitorLockType::HandlePowerKey => "handle-power-key",
            InhibitorLockType::HandleSuspendKey => "handle-suspend-key",
            InhibitorLockType::HandleHibernateKey => "handle-hibernate-key",
            InhibitorLockType::HandleLidSwitch => "handle-lid-switch",
        }
    }
}

/// The colon-joined spelling of a set of lock types, in order.
pub open spec fn spec_inhibit_what(types: Seq<InhibitorLockType>) -> Seq<char>
    decreases types.len(),
{
    if types.len() == 0 {
        Seq::empty()
    } else if types.len() == 1 {
        type_str_view(types[0])
    } else {
        spec_inhibit_what(types.drop_last()) + (":")@ + type_str_view(types.last())
    }
}

/// Builds the `what` argument of an Inhibit call: the lock types joined
/// with colons, in the order given.
pub fn inhibit_what(types: &Vec<InhibitorLockType>) -> (r: String)
    ensures
        r@ == spec_inhibit_what(types@),
{
    let mut s = String::new();
    let n: usize = types.len();
    assert(types@.subrange(0, 0) =~= Seq::<InhibitorLockType>::empty());
    let mut i: usize = 0;
    while i < n
        invariant
            0 <= i <= n,
            n == types@.len(),
            s@ == spec_inhibit_what(types@.subrange(0, i as int)),
        decreases n - i,
    {
        proof {
            assert(types@.subrange(0, i as int + 1).drop_last() =~= types@.subrange(
                0,
                i as int,
            ));
            assert(types@.subrange(0, i as int + 1).last() == types@[i as int]);
        }
        if i > 0 {
            s.append(":");
        }
        s.append(types[i].type_str());
        i = i + 1;
    }
    proof {
        assert(types@.subrange(0, n as int) =~= types@);
    }
    s
}

/// The scheduler's lock covers exactly sleep and shutdown: the
/// colon-joined spelling of those two types is the `sleep:shutdown`
/// string its Inhibit calls carry.
pub proof fn lemma_sleep_shutdown_what()
    ensures
        spec_inhibit_what(seq![InhibitorLockType::Sleep, InhibitorLockType::Shutdown]) == (
        "sleep:shutdown")@,
{
    reveal_strlit("sleep");
    reveal_strlit("shutdown");
    reveal_strlit(":");
    reveal_strlit("sleep:shutdown");
    let pair = seq![InhibitorLockType::Sleep, InhibitorLockType::Shutdown];
    assert(pair.drop_last() =~= seq![InhibitorLockType::Sleep]);
    assert(spec_inhibit_what(seq![InhibitorLockType::Sleep]) == type_str_view(
        InhibitorLockType::Sleep,
    ));
    assert(spec_inhibit_what(pair) =~= ("sleep:shutdown")@);
}

/// The record of an acquired inhibitor lock: which descriptor carries it,
/// what it covers, and in which mode.  The descriptor itself is an OS
/// resource owned by the process shell; closing it releases the lock.
#[derive(Debug)]
pub struct InhibitorLock {
    /// The file descriptor number the login manager handed back.
    pub fd: i32,
    /// The operations the lock covers, colon-joined.
    pub what: String,
    /// The lock's mode.
    pub mode: InhibitorLockMode,
}

} // verus!
