//! The handshake and liveness state machine.
//!
//! Connection establishment is a single `Hello`/`HelloAck` exchange with a
//! five-second upper bound; once connected, `Ping` is answered with `Pong`
//! and an incoming `Pong` is only noted.  No retransmission happens inside
//! the window and no keepalive is initiated: replies are responder-driven.

use vstd::prelude::*;
use crate::packet::ControlMessage;

verus! {

/// No `HelloAck` within this many milliseconds of entering `Connecting`
/// aborts the attempt.
pub const HANDSHAKE_TIMEOUT_MS: u64 = 5000;

/// Connection state, owned exclusively by the bridge loop.
#[derive(Clone, Copy, Debug, PartialEq, Eq, Structural)]
pub enum ConnState {
    /// No attempt in progress; initial and terminal.
    Disconnected,
    /// `Hello` sent at the recorded instant, answer pending.
    Connecting { since_ms: u64 },
    /// `HelloAck` received; relay may proceed.
    Connected,
}

/// What a received control message asks of the loop: the state to move to,
/// the control reply owed to the peer, and the event worth a log entry.
pub struct ControlStep {
    pub next: ConnState,
    pub reply: Option<ControlMessage>,
    pub note: Option<HandshakeNote>,
}

/// Events of the state machine that surface in the status log.
#[derive(Clone, Copy, Debug, PartialEq, Eq, Structural)]
pub enum HandshakeNote {
    /// The peer opened its own handshake; we acknowledged.
    HelloSeen,
    /// Our `Hello` was acknowledged; the link is up.
    ConnectedNow,
    /// The peer answered a ping; liveness confirmed.
    PongSeen,
}

/// The transition table for a control message received from the peer:
/// `Hello` is always acknowledged, `HelloAck` completes a pending attempt
/// and is otherwise ignored, `Ping` is answered, `Pong` is noted.
pub open spec fn spec_on_control(state: ConnState, msg: ControlMessage) -> ControlStep {
    match msg {
        ControlMessage::Hello => ControlStep {
            next: state,
            reply: Some(ControlMessage::HelloAck),
            note: Some(HandshakeNote::HelloSeen),
        },
        ControlMessage::HelloAck => if state is Connecting {
            ControlStep {
                next: ConnState::Connected,
                reply: None,
                note: Some(HandshakeNote::ConnectedNow),
            }
        } else {
            ControlStep { next: state, reply: None, note: None }
        },
        ControlMessage::Ping => ControlStep {
            next: state,
            reply: Some(ControlMessage::Pong),
            note: None,
        },
        ControlMessage::Pong => ControlStep {
            next: state,
            reply: None,
            note: Some(HandshakeNote::PongSeen),
        },
    }
}

/// Whether a pending attempt has outlived its window.  Only `Connecting`
/// can time out.
pub open spec fn spec_timed_out(state: ConnState, now_ms: u64) -> bool {
    match state {
        ConnState::Connecting { since_ms } => now_ms >= since_ms + HANDSHAKE_TIMEOUT_MS,
        _ => false,
    }
}

/// Run the transition table on one received control message.
pub fn on_control(state: ConnState, msg: ControlMessage) -> (r: ControlStep)
    ensures
        r == spec_on_control(state, msg),
{
    match msg {
        ControlMessage::Hello => ControlStep {
            next: state,
            reply: Some(ControlMessage::HelloAck),
            note: Some(HandshakeNote::HelloSeen),
        },
        ControlMessage::HelloAck => match state {
            ConnState::Connecting { .. } => ControlStep {
                next: ConnState::Connected,
                reply: None,
                note: Some(HandshakeNote::ConnectedNow),
            },
            _ => ControlStep { next: state, reply: None, note: None },
        },
        ControlMessage::Ping => ControlStep {
            next: state,
            reply: Some(ControlMessage::Pong),
            note: None,
        },
        ControlMessage::Pong => ControlStep {
            next: state,
            reply: None,
            note: Some(HandshakeNote::PongSeen),
        },
    }
}

/// Decide whether a pending attempt has timed out at the given instant.
pub fn timed_out(state: ConnState, now_ms: u64) -> (r: bool)
    ensures
        r == spec_timed_out(state, now_ms),
{
    match state {
        ConnState::Connecting { since_ms } => {
            now_ms >= since_ms && now_ms - since_ms >= HANDSHAKE_TIMEOUT_MS
        }
        _ => false,
    }
}

} // verus!
