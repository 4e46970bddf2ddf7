//! How a service is brought to a stop before its registration is removed.

use vstd::prelude::*;

verus! {

/// How long to wait after a stop request before asking for the service's
/// state again, in seconds.
pub const STOP_POLL_SECS: u64 = 2;

/// What to do after the supervisor has told the service's state.
#[derive(Clone, Copy, Debug, PartialEq, Eq, Structural)]
pub enum Step {
    /// Ask the service to stop, wait `wait_secs` seconds and ask for its
    /// state again.
    RequestStop { wait_secs: u64 },
    /// Remove the registration and the service's event source.
    Remove,
}

/// The step that follows a query: a service is removed only once it has
/// stopped, and is asked to stop as long as it has not.
pub open spec fn step_after(stopped: bool) -> Step {
    if stopped {
        Step::Remove
    } else {
        Step::RequestStop { wait_secs: STOP_POLL_SECS }
    }
}

/// Decides what follows a query of the service's state.
pub fn after_query(stopped: bool) -> (step: Step)
    ensures
        step == step_after(stopped),
{
    if stopped {
        Step::Remove
    } else {
        Step::RequestStop { wait_secs: STOP_POLL_SECS }
    }
}

} // verus!
