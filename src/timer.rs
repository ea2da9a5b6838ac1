//! The phases of the shared timer.

use vstd::prelude::*;

verus! {

/// Where the timer is in an attempt.
#[derive(Clone, Copy, Debug, PartialEq, Eq, Structural)]
pub enum TimerPhase {
    NotRunning,
    Running,
    Ended,
    Paused,
}

impl TimerPhase {
    /// Whether the timer is actively counting an attempt.
    pub open spec fn timing(self) -> bool {
        self == TimerPhase::Running || self == TimerPhase::Paused
    }

    /// Whether the timer is actively counting an attempt.
    pub fn is_timing(self) -> (r: bool)
        ensures
            r == self.timing(),
    {
        match self {
            TimerPhase::Running | TimerPhase::Paused => true,
            _ => false,
        }
    }
}

} // verus!
