//! One connection attempt, driven end to end through the library's
//! decisions: a stub token reply, the handshake, one inbound envelope,
//! heartbeats through the relay, and a clean stream end.

use ws_event_client::heartbeat::{heartbeat_frame, heartbeat_step, HeartbeatNext};
use ws_event_client::lifecycle::{session_step, SessionAction, SessionEvent, SessionPhase};
use ws_event_client::relay::OutboundRelay;
use ws_event_client::service::{Dispatch, WebSocketService};

#[test]
fn one_session_from_token_to_clean_close() {
    let service = WebSocketService::new(
        String::from("acct"),
        String::from("id"),
        String::from("secret"),
        String::from("wss://gw.example.test/events?subscriptionId=1"),
    );

    // The stub token endpoint replies with a body holding one token.
    let token = WebSocketService::extract_access_token("{\"access_token\":\"T\"}")
        .expect("the stub reply carries a token");
    assert_eq!(token, "T");

    // The lifecycle asks for a handshake with exactly that token.
    let (phase, action) = session_step(SessionPhase::Idle, SessionEvent::TokenOk(token));
    assert_eq!(phase, SessionPhase::Connecting);
    let url = match action {
        SessionAction::Connect(t) => service.ws_url(&t),
        other => panic!("expected a connect decision, got {:?}", std::mem::discriminant(&other)),
    };
    assert_eq!(
        url,
        "wss://gw.example.test/events?subscriptionId=1&access_token=T"
    );

    // The stub gateway accepts: the session opens.
    let (phase, action) = session_step(phase, SessionEvent::ConnectOk);
    assert_eq!(phase, SessionPhase::Open);
    assert!(matches!(action, SessionAction::StartSession));

    // The heartbeat emitter enqueues onto the relay; the forwarding task
    // drains it to the wire in order.
    let mut relay = OutboundRelay::new();
    let mut wire: Vec<String> = Vec::new();
    assert_eq!(heartbeat_step(relay.enqueue(heartbeat_frame())), HeartbeatNext::Continue);
    while let Some(frame) = relay.dequeue() {
        wire.push(frame);
    }
    assert_eq!(wire, vec![String::from("{\"module\": \"heartbeat\"}")]);

    // The stub gateway sends one envelope; it is dispatched, the content
    // is rendered, and the handler for a created user runs exactly once.
    let envelope = "{\"module\":\"message\",\"content\":{\"event\":\"user.created\"}}";
    let (phase, action) = session_step(phase, SessionEvent::TextFrame(String::from(envelope)));
    assert_eq!(phase, SessionPhase::Open);
    let mut handler_runs: usize = 0;
    match action {
        SessionAction::Dispatch(frame) => match service.message_handler(&frame) {
            Dispatch::Message { pretty, user_created } => {
                assert_eq!(pretty, "{\n  \"event\": \"user.created\"\n}");
                if user_created {
                    handler_runs += 1;
                }
            }
            other => panic!("expected a message envelope, got {:?}", other),
        },
        _ => panic!("expected a dispatch decision"),
    }
    assert_eq!(handler_runs, 1);

    // The stub gateway closes; the read loop exits cleanly.
    let (phase, action) = session_step(phase, SessionEvent::StreamEnd);
    assert_eq!(phase, SessionPhase::Closed);
    assert!(matches!(action, SessionAction::Close));

    // Teardown: the relay closes and the emitter stops quietly.
    relay.close();
    assert_eq!(heartbeat_step(relay.enqueue(heartbeat_frame())), HeartbeatNext::Stop);
}

#[test]
fn a_failed_token_acquisition_never_reaches_the_gateway() {
    // The stub endpoint replies with a malformed body: no token, no
    // handshake, and the process goes on to report and exit.
    assert_eq!(WebSocketService::extract_access_token("<html>503</html>"), None);
    let (phase, action) = session_step(SessionPhase::Idle, SessionEvent::TokenErr);
    assert_eq!(phase, SessionPhase::Failed);
    assert!(matches!(action, SessionAction::Abort));
}
