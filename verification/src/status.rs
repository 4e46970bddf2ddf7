//! The lifecycle states of one activation and the status record that tells
//! the supervisor about each of them.

use vstd::prelude::*;

verus! {

/// How long the supervisor should wait for a start to finish, in seconds.
pub const START_PENDING_WAIT_SECS: u64 = 30;

/// How long the supervisor should wait for a stop to finish, in seconds.
pub const STOP_PENDING_WAIT_SECS: u64 = 30;

/// The phase of an activation as the supervisor sees it.
#[derive(Clone, Copy, Debug, PartialEq, Eq, Structural)]
pub enum LifecycleState {
    StartPending,
    Running,
    StopPending,
    Stopped,
}

/// One status record as handed to the supervisor.
#[derive(Clone, Copy, Debug, PartialEq, Eq, Structural)]
pub struct StatusReport {
    /// The state being reported.
    pub state: LifecycleState,
    /// Whether the service takes a stop request in this state. No other
    /// control is ever accepted.
    pub accepts_stop: bool,
    /// The exit code of the service; zero means no error.
    pub exit_code: u32,
    /// The progress counter of a pending state.
    pub checkpoint: u32,
    /// How long the supervisor should wait for the next report, in seconds;
    /// zero outside pending states.
    pub wait_hint_secs: u64,
}

/// The states of a complete activation in the order in which they are
/// reported.
pub open spec fn activation_order() -> Seq<LifecycleState> {
    seq![
        LifecycleState::StartPending,
        LifecycleState::Running,
        LifecycleState::StopPending,
        LifecycleState::Stopped,
    ]
}

impl LifecycleState {
    /// The position of the state in an activation, counted from zero.
    pub open spec fn rank(self) -> nat {
        match self {
            LifecycleState::StartPending => 0,
            LifecycleState::Running => 1,
            LifecycleState::StopPending => 2,
            LifecycleState::Stopped => 3,
        }
    }

    /// The state that follows this one; `Stopped` is the last.
    pub open spec fn successor(self) -> Option<LifecycleState> {
        match self {
            LifecycleState::StartPending => Some(LifecycleState::Running),
            LifecycleState::Running => Some(LifecycleState::StopPending),
            LifecycleState::StopPending => Some(LifecycleState::Stopped),
            LifecycleState::Stopped => None,
        }
    }

    /// Whether the state is one the service passes through on its way to
    /// another.
    pub open spec fn is_pending(self) -> bool {
        self == LifecycleState::StartPending || self == LifecycleState::StopPending
    }

    /// The record that reports this state: a stop is accepted only while
    /// running, a wait hint is given only while pending, and the exit code
    /// and the checkpoint are always zero.
    pub open spec fn report(self) -> StatusReport {
        StatusReport {
            state: self,
            accepts_stop: self == LifecycleState::Running,
            exit_code: 0,
            checkpoint: 0,
            wait_hint_secs: match self {
                LifecycleState::StartPending => START_PENDING_WAIT_SECS,
                LifecycleState::StopPending => STOP_PENDING_WAIT_SECS,
                _ => 0,
            },
        }
    }

    /// The state that follows this one, if any.
    pub fn next(self) -> (following: Option<LifecycleState>)
        ensures
            following == self.successor(),
    {
        match self {
            LifecycleState::StartPending => Some(LifecycleState::Running),
            LifecycleState::Running => Some(LifecycleState::StopPending),
            LifecycleState::StopPending => Some(LifecycleState::Stopped),
            LifecycleState::Stopped => None,
        }
    }

    /// Builds the record that reports this state.
    pub fn status(self) -> (record: StatusReport)
        ensures
            record == self.report(),
    {
        match self {
            LifecycleState::StartPending => StatusReport {
                state: self,
                accepts_stop: false,
                exit_code: 0,
                checkpoint: 0,
                wait_hint_secs: START_PENDING_WAIT_SECS,
            },
            LifecycleState::Running => StatusReport {
                state: self,
                accepts_stop: true,
                exit_code: 0,
                checkpoint: 0,
                wait_hint_secs: 0,
            },
            LifecycleState::StopPending => StatusReport {
                state: self,
                accepts_stop: false,
                exit_code: 0,
                checkpoint: 0,
                wait_hint_secs: STOP_PENDING_WAIT_SECS,
            },
            LifecycleState::Stopped => StatusReport {
                state: self,
                accepts_stop: false,
                exit_code: 0,
                checkpoint: 0,
                wait_hint_secs: 0,
            },
        }
    }

    /// The successor relation walks `activation_order` from its first entry
    /// to its last, one place at a time.
    pub proof fn successor_follows_order(self)
        ensures
            activation_order()[self.rank() as int] == self,
            self.successor() matches Some(following) ==> following.rank() == self.rank() + 1,
            self.successor() is None <==> self == LifecycleState::Stopped,
    {
    }
}

} // verus!
