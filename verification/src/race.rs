//! The per-poll decision of the race-until-cancelled combinator.
//!
//! Racing an [`crate::Exit`] against a unit of work asks, on every poll, first
//! whether the shutdown event has fired and then whether the work has
//! produced its output. The combinator's bias lives entirely in this
//! decision: when both sides are ready at once, the exit side wins.

use vstd::prelude::*;

verus! {

/// What one poll of the race concludes, given what the two sides reported:
/// `exit_ready` is whether the shutdown event has fired, `work` is the work's
/// output if the work has completed.
///
/// `None` means the race is still undecided; `Some(outcome)` means it has
/// finished with `outcome` — `None` for "the event fired first", `Some(v)`
/// for "the work finished first with `v`".
pub open spec fn race_decision<T>(exit_ready: bool, work: Option<T>) -> Option<Option<T>> {
    if exit_ready {
        Some(None)
    } else {
        match work {
            Some(v) => Some(Some(v)),
            None => None,
        }
    }
}

/// Decide one poll of the race. The exit side is consulted first, so a fired
/// event beats work output that became ready in the same poll.
pub fn until_step<T>(exit_ready: bool, work: Option<T>) -> (r: Option<Option<T>>)
    ensures
        r == race_decision(exit_ready, work),
        exit_ready ==> r == Some(None::<T>),
        !exit_ready && work is Some ==> r == Some(work),
        !exit_ready && work is None ==> r is None,
{
    if exit_ready {
        Some(None)
    } else {
        match work {
            Some(v) => Some(Some(v)),
            None => None,
        }
    }
}

} // verus!
