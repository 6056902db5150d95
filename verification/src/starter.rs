//! The unit starter's bookkeeping: which payload unit is awaited, and
//! whether its job has been seen finishing.  The bus traffic (Subscribe,
//! StartUnit, the JobRemoved match) happens outside the library and
//! feeds each removed job's unit name in here.

use vstd::prelude::*;

verus! {

/// Tracks one StartUnit call until its job is removed.
#[derive(Debug)]
pub struct UnitStarter {
    /// The payload unit whose job is awaited.
    pub unit: String,
    /// Whether a JobRemoved for that unit has been seen.
    pub started: bool,
}

impl UnitStarter {
    /// A starter awaiting the given unit's job.
    pub fn new(unit: String) -> (s: UnitStarter)
        ensures
            s.unit@ == unit@,
            !s.started,
    {
        UnitStarter { unit, started: false }
    }

    /// Feeds one JobRemoved signal's unit name.  Completion is recorded
    /// exactly when the name matches the awaited unit; the result says
    /// whether the signal match should stay registered, which is until
    /// the first match.
    pub fn handle_job_removed(&mut self, unit: &String) -> (keep: bool)
        ensures
            final(self).unit == old(self).unit,
            final(self).started == (old(self).started || unit@ == old(self).unit@),
            keep == !(unit@ == old(self).unit@),
    {
        if unit.eq(&self.unit) {
            self.started = true;
            false
        } else {
            true
        }
    }

    /// Whether the awaited job has been seen finishing.
    pub fn is_complete(&self) -> (r: bool)
        ensures
            r == self.started,
    {
        self.started
    }
}

/// The job mode handed to StartUnit: `fail` makes the manager reject the
/// start when it conflicts with a pending job.
pub fn start_unit_mode() -> (r: &'static str)
    ensures
        r@ == ("fail")@,
{
    "fail"
}

} // verus!
