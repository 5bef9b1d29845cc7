//! The bounded stop sequence a supervisor runs to stop a service:
//! request graceful shutdown, wait up to the configured timeout polling
//! liveness, then force-kill. The decisions live here, verified; the
//! orchestrating caller performs each action and reports what it saw.
use vstd::prelude::*;

use crate::error::ProcessControlError;

verus! {

/// Where the stop sequence stands.
#[derive(Debug, Clone, Copy, PartialEq, Eq, Structural)]
pub enum StopState {
    /// The service runs; nothing has been sent yet.
    Running,
    /// The shutdown signal went out; waiting for the process to go away.
    Stopping,
    /// The timeout elapsed and the kill went out; waiting a bounded grace.
    Overdue,
    /// The process is gone. Terminal.
    Stopped,
}

/// What the orchestrating caller must do next.
#[derive(Debug, Clone, Copy, PartialEq, Eq, Structural)]
pub enum StopAction {
    /// Deliver the configured shutdown signal.
    SendShutdownSignal,
    /// Wait a bounded interval, then poll liveness again.
    Poll,
    /// Deliver the unconditional kill.
    ForceKill,
    /// Nothing: the sequence is over.
    Done,
}

/// One step of the stop sequence, given what the caller just observed:
/// whether the process is still alive, and whether the shutdown timeout
/// has elapsed.
pub open spec fn stop_step_spec(state: StopState, alive: bool, timed_out: bool) -> (StopState,
    StopAction) {
    if !alive {
        (StopState::Stopped, StopAction::Done)
    } else {
        match state {
            StopState::Running => (StopState::Stopping, StopAction::SendShutdownSignal),
            StopState::Stopping => if timed_out {
                (StopState::Overdue, StopAction::ForceKill)
            } else {
                (StopState::Stopping, StopAction::Poll)
            },
            StopState::Overdue => (StopState::Overdue, StopAction::Poll),
            StopState::Stopped => (StopState::Stopped, StopAction::Done),
        }
    }
}

/// Advances the stop sequence by one observation.
pub fn stop_step(state: StopState, alive: bool, timed_out: bool) -> (r: (StopState, StopAction))
    ensures
        r == stop_step_spec(state, alive, timed_out),
{
    if !alive {
        (StopState::Stopped, StopAction::Done)
    } else {
        match state {
            StopState::Running => (StopState::Stopping, StopAction::SendShutdownSignal),
            StopState::Stopping => if timed_out {
                (StopState::Overdue, StopAction::ForceKill)
            } else {
                (StopState::Stopping, StopAction::Poll)
            },
            StopState::Overdue => (StopState::Overdue, StopAction::Poll),
            StopState::Stopped => (StopState::Stopped, StopAction::Done),
        }
    }
}

/// Whether a delivery outcome lets the stop sequence proceed: success
/// does, and so does finding the process already gone — the goal, a
/// process that no longer runs, is then already met.
pub open spec fn delivery_proceeds(outcome: Result<(), ProcessControlError>) -> bool {
    outcome is Ok || outcome == Err::<(), ProcessControlError>(ProcessControlError::NoSuchProcess)
}

/// Resolves a signal-delivery outcome for the stop sequence: success and
/// an already-exited process both proceed as a no-op success; any other
/// failure ends the sequence with that failure, unchanged.
pub fn resolve_delivery(outcome: Result<(), ProcessControlError>) -> (r: Result<
    (),
    ProcessControlError,
>)
    ensures
        r is Ok <==> delivery_proceeds(outcome),
        r matches Err(e) ==> outcome == Err::<(), ProcessControlError>(e),
{
    match outcome {
        Ok(()) => Ok(()),
        Err(ProcessControlError::NoSuchProcess) => Ok(()),
        Err(e) => Err(e),
    }
}

/// A process observed dead ends the sequence at once, from any state:
/// in particular, signalling an already-exited process is a no-op success.
pub proof fn lemma_dead_process_stops(state: StopState, timed_out: bool)
    ensures
        stop_step_spec(state, false, timed_out) == (StopState::Stopped, StopAction::Done),
{
}

/// `Stopped` is terminal: no observation leaves it, and no further action
/// is ever requested.
pub proof fn lemma_stopped_is_terminal(alive: bool, timed_out: bool)
    ensures
        stop_step_spec(StopState::Stopped, alive, timed_out).0 == StopState::Stopped,
        stop_step_spec(StopState::Stopped, alive, timed_out).1 == StopAction::Done,
{
}

/// A process that stays alive past the timeout is force-killed: once the
/// shutdown signal is out, continued liveness after the timeout elapses
/// makes the one and only next action the unconditional kill.
pub proof fn lemma_overdue_forces_kill()
    ensures
        stop_step_spec(StopState::Stopping, true, true) == (StopState::Overdue,
        StopAction::ForceKill),
{
}

} // verus!
