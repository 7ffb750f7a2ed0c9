//! The heartbeat rule: a fixed keep-alive frame, emitted on a fixed
//! period for as long as the relay accepts it.

use vstd::prelude::*;

use crate::relay::{OutboundRelay, RELAY_CAPACITY};

verus! {

/// Seconds between two heartbeat frames.
pub const HEARTBEAT_INTERVAL_SECS: u64 = 30;

/// What the emitter does after one attempt to enqueue a heartbeat.
#[derive(Debug, Clone, Copy, PartialEq, Eq, Structural)]
pub enum HeartbeatNext {
    /// The relay accepted the frame: sleep one interval and emit again.
    Continue,
    /// The relay refused the frame (it is closed or full because the
    /// connection is tearing down): stop emitting, quietly.
    Stop,
}

/// The keep-alive frame, exactly as it goes onto the wire.
pub fn heartbeat_frame() -> (frame: String)
    ensures
        frame@ == "{\"module\": \"heartbeat\"}"@,
{
    let frame: String = String::from_str("{\"module\": \"heartbeat\"}");
    frame
}

/// The emitter's rule: keep going exactly as long as the relay accepted
/// the frame.
pub open spec fn spec_heartbeat_next(enqueued: bool) -> HeartbeatNext {
    if enqueued {
        HeartbeatNext::Continue
    } else {
        HeartbeatNext::Stop
    }
}

/// The emitter's only decision, exactly the rule above.
pub fn heartbeat_step(enqueued: bool) -> (next: HeartbeatNext)
    ensures
        next == spec_heartbeat_next(enqueued),
{
    if enqueued {
        HeartbeatNext::Continue
    } else {
        HeartbeatNext::Stop
    }
}

/// Emission ceases once the relay is closed: a closed relay accepts no
/// frame — `accepted` here is the relay's acceptance condition — and on
/// a refused frame the emitter's next step is to stop.
pub proof fn lemma_closed_relay_stops_emitter(relay: OutboundRelay, accepted: bool)
    requires
        relay.is_shut(),
        accepted <==> (!relay.is_shut() && relay@.len() < RELAY_CAPACITY),
    ensures
        !accepted,
        spec_heartbeat_next(accepted) == HeartbeatNext::Stop,
{
}

} // verus!
