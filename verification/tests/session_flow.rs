use synth_bridge::session::{step, SessionEvent, SessionState};

#[test]
fn session_walks_its_chain_in_order() {
    let s = SessionState::Idle;
    let s = step(s, SessionEvent::PortResolved).unwrap();
    assert_eq!(s, SessionState::PortSelected);
    let s = step(s, SessionEvent::EngineConstructed).unwrap();
    assert_eq!(s, SessionState::EngineReady);
    let s = step(s, SessionEvent::AdaptersWired).unwrap();
    assert_eq!(s, SessionState::Streaming);
    let s = step(s, SessionEvent::ShutdownRequested).unwrap();
    assert_eq!(s, SessionState::Closing);
    let s = step(s, SessionEvent::TeardownFinished).unwrap();
    assert_eq!(s, SessionState::Terminated);
}

#[test]
fn no_transition_skips_a_state() {
    assert_eq!(step(SessionState::Idle, SessionEvent::EngineConstructed), None);
    assert_eq!(step(SessionState::Idle, SessionEvent::AdaptersWired), None);
    assert_eq!(step(SessionState::PortSelected, SessionEvent::ShutdownRequested), None);
    assert_eq!(step(SessionState::EngineReady, SessionEvent::TeardownFinished), None);
}

#[test]
fn no_transition_goes_back() {
    assert_eq!(step(SessionState::Streaming, SessionEvent::PortResolved), None);
    assert_eq!(step(SessionState::Closing, SessionEvent::EngineConstructed), None);
    assert_eq!(step(SessionState::EngineReady, SessionEvent::PortResolved), None);
}

#[test]
fn terminated_accepts_no_event() {
    for e in [
        SessionEvent::PortResolved,
        SessionEvent::EngineConstructed,
        SessionEvent::AdaptersWired,
        SessionEvent::ShutdownRequested,
        SessionEvent::TeardownFinished,
    ] {
        assert_eq!(step(SessionState::Terminated, e), None);
    }
}
