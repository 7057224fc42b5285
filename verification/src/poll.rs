//! The loop that scrapes again and again until it is told to stop.
//!
//! The loop runs a cycle, hands on what came of it, and waits for the next
//! tick or for a signal to stop, whichever comes first. A cycle that fails is
//! reported and the loop goes on; only the signal ends it. The one who runs
//! the loop feeds each event to [`poll_step`] and does what it says.

use vstd::prelude::*;

verus! {

/// The time between two cycles where none is asked for, in seconds.
pub const DEFAULT_REFRESH_SECONDS: u64 = 30;

/// Whether the loop goes on.
#[derive(Clone, Copy, Debug, PartialEq, Eq, Structural)]
pub enum PollState {
    Running,
    Stopped,
}

/// What happened to the loop.
#[derive(Clone, Copy, Debug, PartialEq, Eq, Structural)]
pub enum PollEvent {
    /// The loop begins.
    Started,
    /// A cycle gave a snapshot.
    Extracted,
    /// A cycle failed.
    Failed,
    /// The snapshot was handed on, or the failure reported.
    Handled,
    /// The time between two cycles is over.
    IntervalElapsed,
    /// The signal to stop came.
    Cancelled,
}

/// What the loop asks for next.
#[derive(Clone, Copy, Debug, PartialEq, Eq, Structural)]
pub enum PollAction {
    /// Run a cycle.
    Extract,
    /// Hand the snapshot to the sink.
    Publish,
    /// Report the failure, and leave the sink as it is.
    Report,
    /// Wait for the time between two cycles to pass, or for the signal to
    /// stop.
    Wait,
    /// Close the session, end the driver and leave.
    ShutDown,
    /// Nothing: the loop is over.
    Nothing,
}

/// The state after `event`, and what the loop asks for.
pub open spec fn poll_after(state: PollState, event: PollEvent) -> (PollState, PollAction) {
    match state {
        PollState::Stopped => (PollState::Stopped, PollAction::Nothing),
        PollState::Running => match event {
            PollEvent::Started => (PollState::Running, PollAction::Extract),
            PollEvent::Extracted => (PollState::Running, PollAction::Publish),
            PollEvent::Failed => (PollState::Running, PollAction::Report),
            PollEvent::Handled => (PollState::Running, PollAction::Wait),
            PollEvent::IntervalElapsed => (PollState::Running, PollAction::Extract),
            PollEvent::Cancelled => (PollState::Stopped, PollAction::ShutDown),
        },
    }
}

/// The state in which the loop begins.
pub fn poll_start() -> (state: PollState)
    ensures
        state == PollState::Running,
{
    PollState::Running
}

/// Takes `event` in, and says what to do next.
///
/// A loop that has stopped stays stopped, and a running loop stops on the
/// signal and on nothing else: not on a cycle that failed.
pub fn poll_step(state: PollState, event: PollEvent) -> (r: (PollState, PollAction))
    ensures
        r == poll_after(state, event),
        r.0 is Stopped <==> state is Stopped || event is Cancelled,
        state is Stopped ==> r.1 is Nothing,
        r.1 is ShutDown <==> state is Running && event is Cancelled,
{
    match state {
        PollState::Stopped => (PollState::Stopped, PollAction::Nothing),
        PollState::Running => match event {
            PollEvent::Started => (PollState::Running, PollAction::Extract),
            PollEvent::Extracted => (PollState::Running, PollAction::Publish),
            PollEvent::Failed => (PollState::Running, PollAction::Report),
            PollEvent::Handled => (PollState::Running, PollAction::Wait),
            PollEvent::IntervalElapsed => (PollState::Running, PollAction::Extract),
            PollEvent::Cancelled => (PollState::Stopped, PollAction::ShutDown),
        },
    }
}

} // verus!
