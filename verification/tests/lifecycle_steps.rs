use ws_event_client::heartbeat::{heartbeat_frame, heartbeat_step, HeartbeatNext, HEARTBEAT_INTERVAL_SECS};
use ws_event_client::lifecycle::{session_step, SessionAction, SessionEvent, SessionPhase};

#[test]
fn a_token_starts_the_handshake() {
    let (phase, action) = session_step(SessionPhase::Idle, SessionEvent::TokenOk(String::from("T")));
    assert_eq!(phase, SessionPhase::Connecting);
    assert!(matches!(action, SessionAction::Connect(t) if t == "T"));
}

#[test]
fn token_failure_aborts_without_connecting() {
    let (phase, action) = session_step(SessionPhase::Idle, SessionEvent::TokenErr);
    assert_eq!(phase, SessionPhase::Failed);
    assert!(matches!(action, SessionAction::Abort));
}

#[test]
fn handshake_success_opens_the_session() {
    let (phase, action) = session_step(SessionPhase::Connecting, SessionEvent::ConnectOk);
    assert_eq!(phase, SessionPhase::Open);
    assert!(matches!(action, SessionAction::StartSession));
}

#[test]
fn handshake_failure_aborts() {
    let (phase, action) = session_step(SessionPhase::Connecting, SessionEvent::ConnectErr);
    assert_eq!(phase, SessionPhase::Failed);
    assert!(matches!(action, SessionAction::Abort));
}

#[test]
fn text_frames_are_dispatched_and_the_session_stays_open() {
    let (phase, action) = session_step(
        SessionPhase::Open,
        SessionEvent::TextFrame(String::from("{\"module\":\"x\"}")),
    );
    assert_eq!(phase, SessionPhase::Open);
    assert!(matches!(action, SessionAction::Dispatch(f) if f == "{\"module\":\"x\"}"));
}

#[test]
fn non_text_frames_are_ignored() {
    let (phase, action) = session_step(SessionPhase::Open, SessionEvent::OtherFrame);
    assert_eq!(phase, SessionPhase::Open);
    assert!(matches!(action, SessionAction::Ignore));
}

#[test]
fn transport_error_closes_the_session() {
    let (phase, action) = session_step(SessionPhase::Open, SessionEvent::TransportErr);
    assert_eq!(phase, SessionPhase::Closed);
    assert!(matches!(action, SessionAction::Close));
}

#[test]
fn stream_end_closes_the_session() {
    let (phase, action) = session_step(SessionPhase::Open, SessionEvent::StreamEnd);
    assert_eq!(phase, SessionPhase::Closed);
    assert!(matches!(action, SessionAction::Close));
}

#[test]
fn an_event_out_of_phase_changes_nothing() {
    let (phase, action) = session_step(SessionPhase::Closed, SessionEvent::ConnectOk);
    assert_eq!(phase, SessionPhase::Closed);
    assert!(matches!(action, SessionAction::Ignore));
    let (phase, action) = session_step(SessionPhase::Failed, SessionEvent::StreamEnd);
    assert_eq!(phase, SessionPhase::Failed);
    assert!(matches!(action, SessionAction::Ignore));
}

#[test]
fn the_heartbeat_frame_and_period_are_fixed() {
    assert_eq!(heartbeat_frame(), "{\"module\": \"heartbeat\"}");
    assert_eq!(HEARTBEAT_INTERVAL_SECS, 30);
}

#[test]
fn the_emitter_stops_exactly_when_the_relay_refuses() {
    assert_eq!(heartbeat_step(true), HeartbeatNext::Continue);
    assert_eq!(heartbeat_step(false), HeartbeatNext::Stop);
}
