//! Session reasoning: deciding from a session listing whether anyone is
//! logged in.  The listing itself comes over the bus, outside the
//! library; only the session IDs reach this module.

use vstd::prelude::*;

verus! {

/// Whether the listing shows any session at all.
pub fn has_sessions_from(session_ids: &Vec<String>) -> (r: bool)
    ensures
        r == (session_ids@.len() > 0),
{
    session_ids.len() > 0
}

/// Whether the listing shows a session other than ours: some listed ID
/// differs from our own.  When our session ID could not be determined,
/// any session at all counts, since we cannot rule it out.
pub fn has_other_sessions_from(session_ids: &Vec<String>, our_id: Option<&String>) -> (r: bool)
    ensures
        r == match our_id {
            Some(id) => exists|i: int|
                0 <= i < session_ids@.len() && #[trigger] session_ids@[i]@ != id@,
            None => session_ids@.len() > 0,
        },
{
    let id = match our_id {
        None => {
            return session_ids.len() > 0;
        },
        Some(id) => id,
    };
    let n: usize = session_ids.len();
    let mut i: usize = 0;
    while i < n
        invariant
            our_id == Some(id),
            0 <= i <= n,
            n == session_ids@.len(),
            forall|k: int| 0 <= k < i ==> #[trigger] session_ids@[k]@ == id@,
        decreases n - i,
    {
        if !session_ids[i].eq(id) {
            assert(session_ids@[i as int]@ != id@);
            return true;
        }
        i = i + 1;
    }
    false
}

} // verus!
