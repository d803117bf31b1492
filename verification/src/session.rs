//! The session lifecycle as an explicit state machine.
//!
//! Startup, streaming and teardown are sequenced as one irreversible
//! chain of states; each transition is a distinct step that the
//! surrounding program performs in order.

use vstd::prelude::*;

verus! {

/// The phases of one session, from process start to clean exit.
#[derive(Clone, Copy, Debug, PartialEq, Eq, Structural)]
pub enum SessionState {
    /// Nothing resolved yet.
    Idle,
    /// A MIDI input port has been chosen.
    PortSelected,
    /// The sound bank is loaded and the engine is constructed.
    EngineReady,
    /// Both adapters are wired; audio and MIDI are live.
    Streaming,
    /// The shutdown signal has arrived; connections are being released.
    Closing,
    /// Both connections are released; the session is over.
    Terminated,
}

/// The one-time steps that drive the session forward.
#[derive(Clone, Copy, Debug, PartialEq, Eq, Structural)]
pub enum SessionEvent {
    /// The input port was resolved (automatically or from a selection).
    PortResolved,
    /// The sound bank was loaded and the engine was constructed.
    EngineConstructed,
    /// The MIDI connection and the audio device were both opened.
    AdaptersWired,
    /// The user asked the session to end.
    ShutdownRequested,
    /// Both connections were released.
    TeardownFinished,
}

/// The position of a state in the session's one-way chain.
pub open spec fn state_index(s: SessionState) -> int {
    match s {
        SessionState::Idle => 0,
        SessionState::PortSelected => 1,
        SessionState::EngineReady => 2,
        SessionState::Streaming => 3,
        SessionState::Closing => 4,
        SessionState::Terminated => 5,
    }
}

/// The transition relation: each event is accepted in exactly one state
/// and moves the session to the next state of the chain.
pub open spec fn spec_step(s: SessionState, e: SessionEvent) -> Option<SessionState> {
    match (s, e) {
        (SessionState::Idle, SessionEvent::PortResolved) => Some(SessionState::PortSelected),
        (SessionState::PortSelected, SessionEvent::EngineConstructed) => Some(
            SessionState::EngineReady,
        ),
        (SessionState::EngineReady, SessionEvent::AdaptersWired) => Some(SessionState::Streaming),
        (SessionState::Streaming, SessionEvent::ShutdownRequested) => Some(SessionState::Closing),
        (SessionState::Closing, SessionEvent::TeardownFinished) => Some(SessionState::Terminated),
        _ => None,
    }
}

/// Apply one session event, refusing it in any state it does not belong to.
pub fn step(s: SessionState, e: SessionEvent) -> (r: Option<SessionState>)
    ensures
        r == spec_step(s, e),
{
    match (s, e) {
        (SessionState::Idle, SessionEvent::PortResolved) => Some(SessionState::PortSelected),
        (SessionState::PortSelected, SessionEvent::EngineConstructed) => Some(
            SessionState::EngineReady,
        ),
        (SessionState::EngineReady, SessionEvent::AdaptersWired) => Some(SessionState::Streaming),
        (SessionState::Streaming, SessionEvent::ShutdownRequested) => Some(SessionState::Closing),
        (SessionState::Closing, SessionEvent::TeardownFinished) => Some(SessionState::Terminated),
        _ => None,
    }
}

/// No transition skips a state and none goes back: every accepted event
/// moves the session exactly one position forward in the chain.
pub proof fn lemma_step_advances_by_one(s: SessionState, e: SessionEvent)
    ensures
        spec_step(s, e) is Some ==> state_index(spec_step(s, e)->Some_0) == state_index(s) + 1,
{
}

/// The terminal state accepts no further event.
pub proof fn lemma_terminated_is_final(e: SessionEvent)
    ensures
        spec_step(SessionState::Terminated, e) is None,
{
}

} // verus!
