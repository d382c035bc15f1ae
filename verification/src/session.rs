//! The session state: the timer's status and its remaining seconds.

use vstd::prelude::*;

verus! {

/// The timer's status.
#[derive(PartialEq, Eq, Structural, Clone, Copy, Debug)]
pub enum Status {
    Idle,
    Running,
    Paused,
}

/// The one persistent piece of session state: the status, and the
/// remaining duration in whole seconds (meaningful only while running or
/// paused).
#[derive(PartialEq, Eq, Structural, Clone, Copy, Debug)]
pub struct SessionState {
    pub status: Status,
    pub remaining: u64,
}

impl SessionState {
    /// The state's invariant: an idle session has no time remaining.
    pub open spec fn wf(self) -> bool {
        self.status == Status::Idle ==> self.remaining == 0
    }

    /// A fresh session: idle, with nothing remaining.
    pub fn new() -> (s: SessionState)
        ensures
            s.status == Status::Idle,
            s.remaining == 0,
            s.wf(),
    {
        SessionState { status: Status::Idle, remaining: 0 }
    }
}

} // verus!
