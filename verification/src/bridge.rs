//! Per-event decisions of the duplex relay loop.
//!
//! The loop itself lives in the embedding program: it waits on the virtual
//! interface and the socket at once, and hands whichever read completed
//! first to the session here.  Each decision says exactly what to do with
//! the event — which datagram to send, which frame to inject, when to stop
//! — and updates the session's connection state and status surface.

use vstd::prelude::*;
use crate::handshake::{
    ConnState, HandshakeNote, on_control, spec_on_control, spec_timed_out, timed_out,
};
use crate::packet::{
    ControlMessage, DecodeError, Packet, PacketModel, PacketPayload, PayloadModel, PROTOCOL_ID,
    spec_decode, spec_encode,
};
use crate::status::{AppState, log_append};

verus! {

/// A socket address as plain values: four IPv4 octets and a port.
#[derive(Clone, Copy, Debug, PartialEq, Eq, Structural)]
pub struct Endpoint {
    pub ip0: u8,
    pub ip1: u8,
    pub ip2: u8,
    pub ip3: u8,
    pub port: u16,
}

/// Immutable per-session endpoints: where to bind and whom to trust.
#[derive(Clone, Copy, Debug, PartialEq, Eq, Structural)]
pub struct Config {
    /// Local address the socket binds to.
    pub bind_addr: Endpoint,
    /// The only peer datagrams are accepted from and sent to.
    pub peer_addr: Endpoint,
}

/// Why the relay loop is told to end.
#[derive(Clone, Copy, Debug, PartialEq, Eq, Structural)]
pub enum StopReason {
    /// The shared shutdown flag was observed set.
    ShutdownRequested,
    /// No `HelloAck` arrived within the handshake window.
    HandshakeTimeout,
    /// A handle was reported invalid; relaying cannot go on.
    FatalIo,
}

/// Whether the relay loop runs another iteration.
#[derive(Clone, Copy, Debug, PartialEq, Eq, Structural)]
pub enum LoopDecision {
    Continue,
    Stop(StopReason),
}

/// What to do with one received datagram.
#[derive(Debug)]
pub enum InboundAction {
    /// Source address is not the configured peer: drop, silently.
    DroppedNotPeer,
    /// The bytes do not decode: drop, after one log entry.
    DroppedMalformed(DecodeError),
    /// Send these bytes back to the peer (a control reply).
    Reply(Vec<u8>),
    /// Write this frame to the virtual interface.
    Deliver(Vec<u8>),
    /// Handled entirely inside the state machine; nothing to send.
    Noted,
}

/// One bridge session: the trusted peer, the authoritative connection
/// state, and the status surface the control surface reads.
pub struct Bridge {
    pub peer: Endpoint,
    pub conn: ConnState,
    pub status: AppState,
}

/// The log text each handshake note leaves.
pub open spec fn note_text(n: HandshakeNote) -> Seq<char> {
    match n {
        HandshakeNote::HelloSeen => "hello received"@,
        HandshakeNote::ConnectedNow => "connected"@,
        HandshakeNote::PongSeen => "pong received"@,
    }
}

/// Exactly one entry with the given text was appended to the log.
pub open spec fn logged_one(before: Seq<String>, after: Seq<String>, text: Seq<char>) -> bool {
    &&& after.len() >= 1
    &&& after == log_append(before, after.last())
    &&& after.last()@ == text
}

/// The bytes encode a control packet with the given message, under the
/// protocol magic and some correlation id.
pub open spec fn is_control_datagram(bytes: Seq<u8>, m: ControlMessage) -> bool {
    exists|id: u64|
        bytes == spec_encode(
            PacketModel { id, protocol_id: PROTOCOL_ID, payload: PayloadModel::Control(m) },
        )
}

/// The bytes encode a data packet carrying exactly the given frame, under
/// the protocol magic and some correlation id.
pub open spec fn is_data_datagram(bytes: Seq<u8>, frame: Seq<u8>) -> bool {
    exists|id: u64|
        bytes == spec_encode(
            PacketModel { id, protocol_id: PROTOCOL_ID, payload: PayloadModel::Data(frame) },
        )
}

/// Law: a datagram built around a frame read from the virtual interface
/// decodes on the receiving side to a data packet carrying exactly that
/// frame — frames cross the tunnel verbatim.
pub proof fn lemma_frame_relay(bytes: Seq<u8>, frame: Seq<u8>)
    requires
        is_data_datagram(bytes, frame),
    ensures
        spec_decode(bytes) matches Ok(p) && p.payload == PayloadModel::Data(frame),
{
    let id = choose|id: u64|
        bytes == spec_encode(
            PacketModel { id, protocol_id: PROTOCOL_ID, payload: PayloadModel::Data(frame) },
        );
    crate::packet::lemma_round_trip(
        PacketModel { id, protocol_id: PROTOCOL_ID, payload: PayloadModel::Data(frame) },
    );
}

/// Law: a control datagram the session sends decodes on the receiving side
/// to exactly the control message it was built from.
pub proof fn lemma_control_relay(bytes: Seq<u8>, m: ControlMessage)
    requires
        is_control_datagram(bytes, m),
    ensures
        spec_decode(bytes) matches Ok(p) && p.payload == PayloadModel::Control(m),
{
    let id = choose|id: u64|
        bytes == spec_encode(
            PacketModel { id, protocol_id: PROTOCOL_ID, payload: PayloadModel::Control(m) },
        );
    crate::packet::lemma_round_trip(
        PacketModel { id, protocol_id: PROTOCOL_ID, payload: PayloadModel::Control(m) },
    );
}

impl Bridge {
    /// The status surface stays within its log bound, and its connectivity
    /// snapshot agrees with the authoritative connection state.
    pub open spec fn wf(&self) -> bool {
        &&& self.status.wf()
        &&& self.status.connected == (self.conn is Connected)
    }

    /// What no decision ever changes: the trusted peer, the display fields,
    /// and the shutdown flag (only the control surface raises it).
    pub open spec fn same_session(&self, other: &Bridge) -> bool {
        &&& self.peer == other.peer
        &&& self.status.same_display(&other.status)
        &&& self.status.shutdown == other.status.shutdown
    }

    /// Open a session: record the peer, enter `Connecting` at the given
    /// instant, and return the encoded `Hello` owed to the peer.
    pub fn start(config: &Config, status: AppState, now_ms: u64) -> (r: (Bridge, Vec<u8>))
        ensures
            r.0.peer == config.peer_addr,
            r.0.conn == (ConnState::Connecting { since_ms: now_ms }),
            !r.0.status.connected,
            r.0.status.same_display(&status),
            r.0.status.shutdown == status.shutdown,
            logged_one(status.logs@, r.0.status.logs@, "sending hello"@),
            is_control_datagram(r.1@, ControlMessage::Hello),
            status.wf() ==> r.0.wf(),
    {
        let hello = Packet::hello();
        let out = hello.encode();
        proof {
            assert(hello@ == (PacketModel {
                id: hello@.id,
                protocol_id: PROTOCOL_ID,
                payload: PayloadModel::Control(ControlMessage::Hello),
            }));
            assert(is_control_datagram(out@, ControlMessage::Hello));
        }
        let mut st = status;
        st.set_connected(false);
        st.log("sending hello".to_owned());
        let bridge = Bridge {
            peer: config.peer_addr,
            conn: ConnState::Connecting { since_ms: now_ms },
            status: st,
        };
        (bridge, out)
    }

    /// The once-per-iteration check: a raised shutdown flag ends the loop
    /// first; otherwise a timed-out handshake aborts the attempt; otherwise
    /// the loop goes on, untouched.
    pub fn poll(&mut self, shutdown: bool, now_ms: u64) -> (r: LoopDecision)
        ensures
            final(self).same_session(old(self)),
            old(self).wf() ==> final(self).wf(),
            shutdown ==> {
                &&& r == LoopDecision::Stop(StopReason::ShutdownRequested)
                &&& final(self).conn == ConnState::Disconnected
                &&& !final(self).status.connected
                &&& logged_one(
                    old(self).status.logs@,
                    final(self).status.logs@,
                    "network loop stopped"@,
                )
            },
            !shutdown && spec_timed_out(old(self).conn, now_ms) ==> {
                &&& r == LoopDecision::Stop(StopReason::HandshakeTimeout)
                &&& final(self).conn == ConnState::Disconnected
                &&& !final(self).status.connected
                &&& logged_one(
                    old(self).status.logs@,
                    final(self).status.logs@,
                    "connection timeout"@,
                )
            },
            !shutdown && !spec_timed_out(old(self).conn, now_ms) ==> {
                &&& r == LoopDecision::Continue
                &&& *final(self) == *old(self)
            },
    {
        if shutdown {
            self.conn = ConnState::Disconnected;
            self.status.set_connected(false);
            self.status.log("network loop stopped".to_owned());
            LoopDecision::Stop(StopReason::ShutdownRequested)
        } else if timed_out(self.conn, now_ms) {
            self.conn = ConnState::Disconnected;
            self.status.set_connected(false);
            self.status.log("connection timeout".to_owned());
            LoopDecision::Stop(StopReason::HandshakeTimeout)
        } else {
            LoopDecision::Continue
        }
    }

    /// Outbound relay: wrap one frame read from the virtual interface into
    /// a data packet for the peer.
    pub fn outbound_frame(&self, frame: Vec<u8>) -> (out: Vec<u8>)
        ensures
            is_data_datagram(out@, frame@),
    {
        let ghost frame_model = frame@;
        let p = Packet::data(frame);
        let out = p.encode();
        proof {
            assert(p@ == (PacketModel {
                id: p@.id,
                protocol_id: PROTOCOL_ID,
                payload: PayloadModel::Data(frame_model),
            }));
            assert(is_data_datagram(out@, frame_model));
        }
        out
    }

    /// Inbound relay: decide what one received datagram means.
    ///
    /// A datagram from any address but the peer is dropped without a trace.
    /// One that does not decode is logged and dropped.  A control message
    /// runs the handshake table; a data payload is handed over for the
    /// virtual interface verbatim.
    pub fn handle_datagram(&mut self, src: Endpoint, data: &[u8]) -> (act: InboundAction)
        ensures
            final(self).same_session(old(self)),
            old(self).wf() ==> final(self).wf(),
            src != old(self).peer ==> {
                &&& act is DroppedNotPeer
                &&& *final(self) == *old(self)
            },
            src == old(self).peer ==> match spec_decode(data@) {
                Err(e) => {
                    &&& act == InboundAction::DroppedMalformed(e)
                    &&& final(self).conn == old(self).conn
                    &&& final(self).status.connected == old(self).status.connected
                    &&& logged_one(
                        old(self).status.logs@,
                        final(self).status.logs@,
                        "dropped malformed datagram"@,
                    )
                },
                Ok(p) => match p.payload {
                    PayloadModel::Data(frame) => {
                        &&& (act matches InboundAction::Deliver(f) && f@ == frame)
                        &&& *final(self) == *old(self)
                    },
                    PayloadModel::Control(m) => {
                        let step = spec_on_control(old(self).conn, m);
                        &&& final(self).conn == step.next
                        &&& match step.reply {
                            Some(rm) => act matches InboundAction::Reply(bytes)
                                && is_control_datagram(bytes@, rm),
                            None => act is Noted,
                        }
                        &&& final(self).status.connected == (
                            if step.note == Some(HandshakeNote::ConnectedNow) {
                                true
                            } else {
                                old(self).status.connected
                            }
                        )
                        &&& match step.note {
                            Some(n) => logged_one(
                                old(self).status.logs@,
                                final(self).status.logs@,
                                note_text(n),
                            ),
                            None => final(self).status.logs@ == old(self).status.logs@
                                && final(self).status.connected == old(self).status.connected,
                        }
                    },
                },
            },
    {
        if !(src == self.peer) {
            return InboundAction::DroppedNotPeer;
        }
        match Packet::decode(data) {
            Err(e) => {
                self.status.log("dropped malformed datagram".to_owned());
                InboundAction::DroppedMalformed(e)
            }
            Ok(p) => match p.payload {
                PacketPayload::Data(frame) => InboundAction::Deliver(frame),
                PacketPayload::Control(m) => {
                    let step = on_control(self.conn, m);
                    self.conn = step.next;
                    match step.note {
                        Some(HandshakeNote::HelloSeen) => {
                            self.status.log("hello received".to_owned());
                        }
                        Some(HandshakeNote::ConnectedNow) => {
                            self.status.set_connected(true);
                            self.status.log("connected".to_owned());
                        }
                        Some(HandshakeNote::PongSeen) => {
                            self.status.log("pong received".to_owned());
                        }
                        None => {}
                    }
                    match step.reply {
                        Some(rm) => {
                            let reply_packet = Packet::new(PacketPayload::Control(rm));
                            let bytes = reply_packet.encode();
                            proof {
                                assert(reply_packet@ == (PacketModel {
                                    id: reply_packet@.id,
                                    protocol_id: PROTOCOL_ID,
                                    payload: PayloadModel::Control(rm),
                                }));
                                assert(is_control_datagram(bytes@, rm));
                            }
                            InboundAction::Reply(bytes)
                        }
                        None => InboundAction::Noted,
                    }
                }
            },
        }
    }

    /// A failed read or write: transient failures are logged and survived;
    /// an invalidated handle ends the session.
    pub fn handle_io_error(&mut self, fatal: bool) -> (r: LoopDecision)
        ensures
            final(self).same_session(old(self)),
            old(self).wf() ==> final(self).wf(),
            fatal ==> {
                &&& r == LoopDecision::Stop(StopReason::FatalIo)
                &&& final(self).conn == ConnState::Disconnected
                &&& !final(self).status.connected
                &&& logged_one(
                    old(self).status.logs@,
                    final(self).status.logs@,
                    "fatal io error"@,
                )
            },
            !fatal ==> {
                &&& r == LoopDecision::Continue
                &&& final(self).conn == old(self).conn
                &&& final(self).status.connected == old(self).status.connected
                &&& logged_one(old(self).status.logs@, final(self).status.logs@, "io error"@)
            },
    {
        if fatal {
            self.conn = ConnState::Disconnected;
            self.status.set_connected(false);
            self.status.log("fatal io error".to_owned());
            LoopDecision::Stop(StopReason::FatalIo)
        } else {
            self.status.log("io error".to_owned());
            LoopDecision::Continue
        }
    }
}

} // verus!
