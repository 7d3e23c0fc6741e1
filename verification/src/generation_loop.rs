//! The course of a run, from its set-up to its end.

use vstd::prelude::*;

verus! {

/// Where a run stands.
#[derive(Debug, Clone, Copy, PartialEq, Eq, Structural)]
pub enum LoopState {
    /// The first population and the workers are being made.
    Initializing,
    /// Generations run, one after the other.
    Running,
    /// The run is over.
    Exiting,
}

/// What is to be done in a state.
#[derive(Debug, Clone, Copy, PartialEq, Eq, Structural)]
pub enum LoopAction {
    /// Make the first population and the workers.
    SetUp,
    /// Run one generation, then show and save its best specimen as the
    /// conditions ask.
    RunGeneration,
    /// Stop.
    Stop,
}

impl LoopState {
    /// The state that follows at the end of a step. A run with a window ends
    /// once a request to end it has been seen, be it before the first
    /// generation; a run without one never ends by itself. The request is
    /// looked at before each generation and at no other time, so a generation
    /// that has begun is finished.
    pub open spec fn following(self, windowed: bool, cancelled: bool) -> LoopState {
        match self {
            LoopState::Initializing | LoopState::Running => if windowed && cancelled {
                LoopState::Exiting
            } else {
                LoopState::Running
            },
            LoopState::Exiting => LoopState::Exiting,
        }
    }

    /// What is to be done in this state.
    pub fn action(&self) -> (action: LoopAction)
        ensures
            action == match self {
                LoopState::Initializing => LoopAction::SetUp,
                LoopState::Running => LoopAction::RunGeneration,
                LoopState::Exiting => LoopAction::Stop,
            },
    {
        match self {
            LoopState::Initializing => LoopAction::SetUp,
            LoopState::Running => LoopAction::RunGeneration,
            LoopState::Exiting => LoopAction::Stop,
        }
    }

    /// The state that follows once the action of this state is done.
    /// `windowed` says whether the run has a window, `cancelled` whether a
    /// request to end the run has been seen.
    pub fn next(&self, windowed: bool, cancelled: bool) -> (next: LoopState)
        ensures
            next == self.following(windowed, cancelled),
    {
        match self {
            LoopState::Initializing | LoopState::Running => {
                if windowed && cancelled {
                    LoopState::Exiting
                } else {
                    LoopState::Running
                }
            },
            LoopState::Exiting => LoopState::Exiting,
        }
    }
}

/// No generation starts once a run with a window has seen a request to end
/// it: whatever the state, the next one is the end, and there the run stops.
pub proof fn no_generation_starts_after_a_request(state: LoopState)
    ensures
        state.following(true, true) == LoopState::Exiting,
        state.following(true, true) != LoopState::Running,
{
}

/// A run that has ended stays ended.
pub proof fn an_ended_run_stays_ended(windowed: bool, cancelled: bool)
    ensures
        LoopState::Exiting.following(windowed, cancelled) == LoopState::Exiting,
{
}

/// A run without a window never ends by itself.
pub proof fn headless_run_never_exits(state: LoopState, cancelled: bool)
    requires
        state != LoopState::Exiting,
    ensures
        state.following(false, cancelled) == LoopState::Running,
{
}

} // verus!
