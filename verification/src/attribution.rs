//! Boot/wake attribution: after the payload ran, decide whether this
//! process most likely caused the machine to power up, and what to do
//! about it.

use vstd::prelude::*;
use crate::store::{record_value, record_wf, parse_resume_record};

verus! {

/// The shortest uptime, in seconds, for which the runner does not hold
/// itself responsible for the boot.
pub const MIN_INNOCENT_UPTIME_SECS: u64 = 300;

/// The shortest time since the resume record was written, in
/// milliseconds, for which the runner does not hold itself responsible
/// for the wake.
pub const MIN_INNOCENT_WAKETIME_MILLIS: i64 = 60_000;

/// What the runner does after the payload unit finished.
#[derive(Debug, Clone, Copy, PartialEq, Eq, Structural)]
pub enum PowerAction {
    /// Power the machine off (we caused the boot).
    PowerOff,
    /// Suspend the machine again (we caused the wake).
    Suspend,
    /// Leave the machine as it is.
    NoAction,
}

/// Did this process cause the boot?  Yes exactly when the uptime is
/// known and still below the innocence threshold; an unknown uptime is
/// treated as no information.
pub open spec fn spec_caused_boot(uptime_secs: Option<u64>) -> bool {
    uptime_secs matches Some(u) && u < MIN_INNOCENT_UPTIME_SECS
}

/// Did this process cause the boot?
pub fn caused_boot(uptime_secs: Option<u64>) -> (r: bool)
    ensures
        r == spec_caused_boot(uptime_secs),
{
    match uptime_secs {
        Some(u) => u < MIN_INNOCENT_UPTIME_SECS,
        None => false,
    }
}

/// Did this process cause the wake?  Yes exactly when the resume record
/// exists, parses, and either was written less than the innocence
/// threshold before the start instant or lies after it (the scheduler's
/// write raced the runner's start).  An absent or malformed record means
/// no.
pub open spec fn spec_caused_wake(start_millis: i64, record: Option<Seq<u8>>) -> bool {
    match record {
        None => false,
        Some(bytes) => {
            &&& record_wf(bytes)
            &&& i64::MIN <= record_value(bytes) <= i64::MAX
            &&& (start_millis < record_value(bytes) || start_millis - record_value(bytes)
                < MIN_INNOCENT_WAKETIME_MILLIS)
        },
    }
}

/// The view of the optional record bytes.
pub open spec fn view_of_record(record: Option<&Vec<u8>>) -> Option<Seq<u8>> {
    match record {
        None => None,
        Some(v) => Some(v@),
    }
}

/// Did this process cause the wake?  `record` is the resume file's
/// contents, or `None` when the file is absent.
pub fn caused_wake(start_millis: i64, record: Option<&Vec<u8>>) -> (r: bool)
    ensures
        r == spec_caused_wake(start_millis, view_of_record(record)),
{
    let bytes = match record {
        None => {
            return false;
        },
        Some(b) => b,
    };
    let resume_millis: i64 = match parse_resume_record(bytes) {
        Ok(v) => v,
        Err(_) => {
            return false;
        },
    };
    if start_millis < resume_millis {
        true
    } else {
        (start_millis as i128) - (resume_millis as i128) < MIN_INNOCENT_WAKETIME_MILLIS as i128
    }
}

/// The follow-up precedence: a caused boot means power off, else a
/// caused wake means suspend, else nothing.
pub open spec fn spec_follow_up(boot: bool, wake: bool) -> PowerAction {
    if boot {
        PowerAction::PowerOff
    } else if wake {
        PowerAction::Suspend
    } else {
        PowerAction::NoAction
    }
}

/// What to do after the payload: power off beats suspend beats nothing.
pub fn follow_up_action(boot: bool, wake: bool) -> (r: PowerAction)
    ensures
        r == spec_follow_up(boot, wake),
{
    if boot {
        PowerAction::PowerOff
    } else if wake {
        PowerAction::Suspend
    } else {
        PowerAction::NoAction
    }
}

} // verus!
