//! The connection lifecycle's decisions, as a step function from phase
//! and event to the next phase and an action. The surrounding process
//! runs the loop: it fetches the token, performs the handshake, reads
//! frames, and hands each outcome back here as an event; this module
//! decides, and its decisions are fail-fast — a failed token acquisition
//! or handshake abandons the attempt, with no retry and no reconnect.

use vstd::prelude::*;

verus! {

/// Where one connection attempt stands.
#[derive(Debug, Clone, Copy, PartialEq, Eq, Structural)]
pub enum SessionPhase {
    /// Nothing has happened yet: the next step is token acquisition.
    Idle,
    /// A token is in hand and the handshake is under way.
    Connecting,
    /// The connection is live: frames are read and dispatched, the
    /// forwarding task drains the relay, the heartbeat emitter runs.
    Open,
    /// Token acquisition or the handshake failed: the attempt is
    /// abandoned, and no connection was or will be made.
    Failed,
    /// The connection ended, by transport error or by stream end.
    Closed,
}

/// What the outside world reports to the lifecycle.
pub enum SessionEvent {
    /// The token endpoint yielded an access token.
    TokenOk(String),
    /// Token acquisition failed: transport error, non-JSON body, or a
    /// missing `access_token` field.
    TokenErr,
    /// The WebSocket handshake succeeded.
    ConnectOk,
    /// The WebSocket handshake failed.
    ConnectErr,
    /// A text frame arrived.
    TextFrame(String),
    /// A non-text frame arrived.
    OtherFrame,
    /// The transport reported an error while reading.
    TransportErr,
    /// The stream ended cleanly.
    StreamEnd,
}

/// What the surrounding process is to do next.
pub enum SessionAction {
    /// Perform the WebSocket handshake at the gateway URL with this
    /// token appended.
    Connect(String),
    /// Spawn the forwarding task and the heartbeat emitter, then read.
    StartSession,
    /// Hand this frame to the message dispatcher.
    Dispatch(String),
    /// Do nothing with what arrived and keep reading.
    Ignore,
    /// Log the failure and stop: the attempt is abandoned.
    Abort,
    /// Report the connection closed and return to the caller.
    Close,
}

/// The transition table of one connection attempt. An event that cannot
/// arrive in a phase changes nothing.
pub open spec fn spec_session_step(phase: SessionPhase, event: SessionEvent) -> (
    SessionPhase,
    SessionAction,
) {
    match (phase, event) {
        (SessionPhase::Idle, SessionEvent::TokenOk(token)) => (
            SessionPhase::Connecting,
            SessionAction::Connect(token),
        ),
        (SessionPhase::Idle, SessionEvent::TokenErr) => (SessionPhase::Failed, SessionAction::Abort),
        (SessionPhase::Connecting, SessionEvent::ConnectOk) => (
            SessionPhase::Open,
            SessionAction::StartSession,
        ),
        (SessionPhase::Connecting, SessionEvent::ConnectErr) => (
            SessionPhase::Failed,
            SessionAction::Abort,
        ),
        (SessionPhase::Open, SessionEvent::TextFrame(frame)) => (
            SessionPhase::Open,
            SessionAction::Dispatch(frame),
        ),
        (SessionPhase::Open, SessionEvent::OtherFrame) => (SessionPhase::Open, SessionAction::Ignore),
        (SessionPhase::Open, SessionEvent::TransportErr) => (
            SessionPhase::Closed,
            SessionAction::Close,
        ),
        (SessionPhase::Open, SessionEvent::StreamEnd) => (SessionPhase::Closed, SessionAction::Close),
        (p, _) => (p, SessionAction::Ignore),
    }
}

/// One decision of the lifecycle: exactly the transition table.
pub fn session_step(phase: SessionPhase, event: SessionEvent) -> (r: (SessionPhase, SessionAction))
    ensures
        r == spec_session_step(phase, event),
{
    match (phase, event) {
        (SessionPhase::Idle, SessionEvent::TokenOk(token)) => (
            SessionPhase::Connecting,
            SessionAction::Connect(token),
        ),
        (SessionPhase::Idle, SessionEvent::TokenErr) => (SessionPhase::Failed, SessionAction::Abort),
        (SessionPhase::Connecting, SessionEvent::ConnectOk) => (
            SessionPhase::Open,
            SessionAction::StartSession,
        ),
        (SessionPhase::Connecting, SessionEvent::ConnectErr) => (
            SessionPhase::Failed,
            SessionAction::Abort,
        ),
        (SessionPhase::Open, SessionEvent::TextFrame(frame)) => (
            SessionPhase::Open,
            SessionAction::Dispatch(frame),
        ),
        (SessionPhase::Open, SessionEvent::OtherFrame) => (SessionPhase::Open, SessionAction::Ignore),
        (SessionPhase::Open, SessionEvent::TransportErr) => (
            SessionPhase::Closed,
            SessionAction::Close,
        ),
        (SessionPhase::Open, SessionEvent::StreamEnd) => (SessionPhase::Closed, SessionAction::Close),
        (p, _) => (p, SessionAction::Ignore),
    }
}

/// A failed token acquisition prevents any connection attempt: whatever
/// the phase, the step taken on a token failure is never a handshake.
pub proof fn lemma_token_failure_never_connects(phase: SessionPhase)
    ensures
        !(spec_session_step(phase, SessionEvent::TokenErr).1 matches SessionAction::Connect(_)),
        phase is Idle ==> spec_session_step(phase, SessionEvent::TokenErr) == (
            SessionPhase::Failed,
            SessionAction::Abort,
        ),
{
}

/// Only a successful token acquisition in the idle phase ever asks for a
/// handshake, and then with exactly the token that was acquired.
pub proof fn lemma_connect_only_with_token(phase: SessionPhase, event: SessionEvent)
    ensures
        spec_session_step(phase, event).1 matches SessionAction::Connect(token) ==> (phase is Idle
            && event == SessionEvent::TokenOk(token)),
{
}

} // verus!
