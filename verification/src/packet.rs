//! The wire format: the unit exchanged between peers and its byte-level
//! codec.
//!
//! A packet carries an opaque correlation id, the fixed protocol magic, and
//! either a control message or a raw data frame.  The encoding is a fixed
//! 13-byte header (id, magic, payload kind) followed by one tag byte for a
//! control message or by the frame bytes for a data payload.

use vstd::prelude::*;
use vstd::bytes::*;
use vstd::std_specs::cmp::PartialEqSpec;

verus! {

/// Magic constant embedded in every packet; a datagram whose protocol-id
/// field differs is foreign noise and is rejected by the decoder.
pub const PROTOCOL_ID: u32 = 0xDEAD_BEEF;

/// Byte length of the fixed header: 8 (id) + 4 (protocol id) + 1 (payload kind).
pub const HEADER_LEN: usize = 13;

/// Payload-kind byte marking a control message.
pub const KIND_CONTROL: u8 = 0;

/// Payload-kind byte marking a data frame.
pub const KIND_DATA: u8 = 1;

/// The closed set of control messages driving handshake and liveness.
#[derive(Clone, Copy, Debug, PartialEq, Eq, Structural)]
pub enum ControlMessage {
    Hello,
    HelloAck,
    Ping,
    Pong,
}

/// A packet body: either a control message or a raw captured frame.
#[derive(Clone, Debug)]
pub enum PacketPayload {
    Control(ControlMessage),
    Data(Vec<u8>),
}

/// Unit exchanged between peers over UDP.
#[derive(Clone, Debug)]
pub struct Packet {
    /// Opaque correlation tag, used only for logging; never interpreted.
    pub id: u64,
    /// Fixed magic; mismatch means the datagram is not ours.
    pub protocol_id: u32,
    /// The body.
    pub payload: PacketPayload,
}

/// Mathematical model of a packet body.
pub enum PayloadModel {
    Control(ControlMessage),
    Data(Seq<u8>),
}

/// Mathematical model of a packet.
pub struct PacketModel {
    pub id: u64,
    pub protocol_id: u32,
    pub payload: PayloadModel,
}

impl View for PacketPayload {
    type V = PayloadModel;

    open spec fn view(&self) -> PayloadModel {
        match self {
            PacketPayload::Control(m) => PayloadModel::Control(*m),
            PacketPayload::Data(d) => PayloadModel::Data(d@),
        }
    }
}

impl View for Packet {
    type V = PacketModel;

    open spec fn view(&self) -> PacketModel {
        PacketModel { id: self.id, protocol_id: self.protocol_id, payload: self.payload@ }
    }
}

/// Why a byte sequence failed to decode.
#[derive(Clone, Copy, Debug, PartialEq, Eq, Structural)]
pub enum DecodeError {
    /// Too short to hold the header, or a control packet cut before its tag.
    Truncated,
    /// The protocol-id field differs from `PROTOCOL_ID`.
    WrongProtocol,
    /// The payload-kind byte is neither control nor data.
    UnknownPayloadKind,
    /// The control-tag byte names no control message.
    UnknownControlTag,
    /// Bytes follow a complete control message.
    TrailingData,
}

/// Tag byte of each control message.
pub open spec fn control_tag(m: ControlMessage) -> u8 {
    match m {
        ControlMessage::Hello => 0,
        ControlMessage::HelloAck => 1,
        ControlMessage::Ping => 2,
        ControlMessage::Pong => 3,
    }
}

/// The bytes a packet encodes to: header, then tag byte or frame.
pub open spec fn spec_encode(p: PacketModel) -> Seq<u8> {
    spec_u64_to_le_bytes(p.id) + spec_u32_to_le_bytes(p.protocol_id) + match p.payload {
        PayloadModel::Control(m) => seq![KIND_CONTROL, control_tag(m)],
        PayloadModel::Data(d) => seq![KIND_DATA] + d,
    }
}

/// The packet a byte sequence decodes to, or the exact reason it is rejected.
pub open spec fn spec_decode(s: Seq<u8>) -> Result<PacketModel, DecodeError> {
    if s.len() < HEADER_LEN {
        Err(DecodeError::Truncated)
    } else {
        let id = spec_u64_from_le_bytes(s.subrange(0, 8));
        let magic = spec_u32_from_le_bytes(s.subrange(8, 12));
        if magic != PROTOCOL_ID {
            Err(DecodeError::WrongProtocol)
        } else if s[12] == KIND_CONTROL {
            if s.len() < 14 {
                Err(DecodeError::Truncated)
            } else if s.len() > 14 {
                Err(DecodeError::TrailingData)
            } else if s[13] == control_tag(ControlMessage::Hello) {
                Ok(PacketModel { id, protocol_id: magic, payload: PayloadModel::Control(ControlMessage::Hello) })
            } else if s[13] == control_tag(ControlMessage::HelloAck) {
                Ok(PacketModel { id, protocol_id: magic, payload: PayloadModel::Control(ControlMessage::HelloAck) })
            } else if s[13] == control_tag(ControlMessage::Ping) {
                Ok(PacketModel { id, protocol_id: magic, payload: PayloadModel::Control(ControlMessage::Ping) })
            } else if s[13] == control_tag(ControlMessage::Pong) {
                Ok(PacketModel { id, protocol_id: magic, payload: PayloadModel::Control(ControlMessage::Pong) })
            } else {
                Err(DecodeError::UnknownControlTag)
            }
        } else if s[12] == KIND_DATA {
            Ok(PacketModel { id, protocol_id: magic, payload: PayloadModel::Data(s.subrange(13, s.len() as int)) })
        } else {
            Err(DecodeError::UnknownPayloadKind)
        }
    }
}

/// Relies on `rand::random`: draws a fresh correlation id; nothing is
/// promised of the value.
#[verifier::external_body]
fn fresh_id() -> u64 {
    rand::random()
}

fn control_tag_exec(m: ControlMessage) -> (r: u8)
    ensures
        r == control_tag(m),
{
    match m {
        ControlMessage::Hello => 0,
        ControlMessage::HelloAck => 1,
        ControlMessage::Ping => 2,
        ControlMessage::Pong => 3,
    }
}

impl Packet {
    /// A fresh packet around the given payload, under the fixed magic and a
    /// random correlation id.
    pub fn new(payload: PacketPayload) -> (r: Packet)
        ensures
            r.protocol_id == PROTOCOL_ID,
            r.payload == payload,
    {
        Packet { id: fresh_id(), protocol_id: PROTOCOL_ID, payload }
    }

    /// A fresh `Hello` control packet.
    pub fn hello() -> (r: Packet)
        ensures
            r.protocol_id == PROTOCOL_ID,
            r.payload == PacketPayload::Control(ControlMessage::Hello),
    {
        Packet::new(PacketPayload::Control(ControlMessage::Hello))
    }

    /// A fresh `HelloAck` control packet.
    pub fn hello_ack() -> (r: Packet)
        ensures
            r.protocol_id == PROTOCOL_ID,
            r.payload == PacketPayload::Control(ControlMessage::HelloAck),
    {
        Packet::new(PacketPayload::Control(ControlMessage::HelloAck))
    }

    /// A fresh `Ping` control packet.
    pub fn ping() -> (r: Packet)
        ensures
            r.protocol_id == PROTOCOL_ID,
            r.payload == PacketPayload::Control(ControlMessage::Ping),
    {
        Packet::new(PacketPayload::Control(ControlMessage::Ping))
    }

    /// A fresh `Pong` control packet.
    pub fn pong() -> (r: Packet)
        ensures
            r.protocol_id == PROTOCOL_ID,
            r.payload == PacketPayload::Control(ControlMessage::Pong),
    {
        Packet::new(PacketPayload::Control(ControlMessage::Pong))
    }

    /// A fresh data packet carrying a raw frame.
    pub fn data(bytes: Vec<u8>) -> (r: Packet)
        ensures
            r.protocol_id == PROTOCOL_ID,
            r.payload@ == PayloadModel::Data(bytes@),
    {
        Packet::new(PacketPayload::Data(bytes))
    }

    /// Serialize for the wire.  Total: every packet encodes.
    pub fn encode(&self) -> (r: Vec<u8>)
        ensures
            r@ == spec_encode(self@),
    {
        let mut out: Vec<u8> = u64_to_le_bytes(self.id);
        let mut magic: Vec<u8> = u32_to_le_bytes(self.protocol_id);
        out.append(&mut magic);
        match &self.payload {
            PacketPayload::Control(m) => {
                out.push(KIND_CONTROL);
                out.push(control_tag_exec(*m));
                proof {
                    assert(out@ =~= spec_encode(self@));
                }
            }
            PacketPayload::Data(d) => {
                out.push(KIND_DATA);
                let ghost head = out@;
                let mut i: usize = 0;
                while i < d.len()
                    invariant
                        i <= d.len(),
                        out@ == head + d@.subrange(0, i as int),
                    decreases d.len() - i,
                {
                    out.push(d[i]);
                    proof {
                        assert(head + d@.subrange(0, i as int) + seq![d@[i as int]]
                            =~= head + d@.subrange(0, i + 1));
                    }
                    i = i + 1;
                }
                proof {
                    assert(d@.subrange(0, d@.len() as int) =~= d@);
                    assert(out@ =~= spec_encode(self@));
                }
            }
        }
        out
    }

    /// Parse bytes from the wire.  Never panics; rejects with the exact
    /// error `spec_decode` names, and on success returns exactly the packet
    /// `spec_decode` names.
    pub fn decode(data: &[u8]) -> (r: Result<Packet, DecodeError>)
        ensures
            match r {
                Ok(p) => spec_decode(data@) == Ok::<PacketModel, DecodeError>(p@),
                Err(e) => spec_decode(data@) == Err::<PacketModel, DecodeError>(e),
            },
    {
        if data.len() < HEADER_LEN {
            return Err(DecodeError::Truncated);
        }
        let id = u64_from_le_bytes(vstd::slice::slice_subrange(data, 0, 8));
        let magic = u32_from_le_bytes(vstd::slice::slice_subrange(data, 8, 12));
        if magic != PROTOCOL_ID {
            return Err(DecodeError::WrongProtocol);
        }
        let kind = *vstd::slice::slice_index_get(data, 12);
        if kind == KIND_CONTROL {
            if data.len() < 14 {
                return Err(DecodeError::Truncated);
            }
            if data.len() > 14 {
                return Err(DecodeError::TrailingData);
            }
            let tag = *vstd::slice::slice_index_get(data, 13);
            let msg = if tag == 0 {
                ControlMessage::Hello
            } else if tag == 1 {
                ControlMessage::HelloAck
            } else if tag == 2 {
                ControlMessage::Ping
            } else if tag == 3 {
                ControlMessage::Pong
            } else {
                return Err(DecodeError::UnknownControlTag);
            };
            Ok(Packet { id, protocol_id: magic, payload: PacketPayload::Control(msg) })
        } else if kind == KIND_DATA {
            let frame = vstd::slice::slice_to_vec(vstd::slice::slice_subrange(data, 13, data.len()));
            Ok(Packet { id, protocol_id: magic, payload: PacketPayload::Data(frame) })
        } else {
            Err(DecodeError::UnknownPayloadKind)
        }
    }
}

/// Law: decoding an encoded packet gives the packet back, whenever the
/// packet bears the protocol magic.
pub proof fn lemma_round_trip(p: PacketModel)
    requires
        p.protocol_id == PROTOCOL_ID,
    ensures
        spec_decode(spec_encode(p)) == Ok::<PacketModel, DecodeError>(p),
{
    lemma_auto_spec_u64_to_from_le_bytes();
    lemma_auto_spec_u32_to_from_le_bytes();
    let s = spec_encode(p);
    assert(s.subrange(0, 8) =~= spec_u64_to_le_bytes(p.id));
    assert(s.subrange(8, 12) =~= spec_u32_to_le_bytes(p.protocol_id));
    match p.payload {
        PayloadModel::Control(m) => {
            assert(s.len() == 14);
            assert(s[12] == KIND_CONTROL);
            assert(s[13] == control_tag(m));
        }
        PayloadModel::Data(d) => {
            assert(s.len() == 13 + d.len());
            assert(s[12] == KIND_DATA);
            assert(s.subrange(13, s.len() as int) =~= d);
        }
    }
}

/// Law: any byte sequence long enough to carry a header whose protocol-id
/// field is not the fixed magic is rejected, with `WrongProtocol` exactly.
pub proof fn lemma_magic_filter_any(s: Seq<u8>)
    requires
        s.len() >= HEADER_LEN,
        spec_u32_from_le_bytes(s.subrange(8, 12)) != PROTOCOL_ID,
    ensures
        spec_decode(s) == Err::<PacketModel, DecodeError>(DecodeError::WrongProtocol),
{
}

/// Law: an otherwise well-formed encoding whose protocol-id field is not the
/// fixed magic is rejected, with `WrongProtocol` exactly.
pub proof fn lemma_magic_filter(p: PacketModel)
    requires
        p.protocol_id != PROTOCOL_ID,
    ensures
        spec_decode(spec_encode(p)) == Err::<PacketModel, DecodeError>(DecodeError::WrongProtocol),
{
    lemma_auto_spec_u64_to_from_le_bytes();
    lemma_auto_spec_u32_to_from_le_bytes();
    let s = spec_encode(p);
    assert(s.len() >= 13);
    assert(s.subrange(8, 12) =~= spec_u32_to_le_bytes(p.protocol_id));
}

impl PartialEq for PacketPayload {
    fn eq(&self, other: &PacketPayload) -> (r: bool) {
        match (self, other) {
            (PacketPayload::Control(a), PacketPayload::Control(b)) => *a == *b,
            (PacketPayload::Data(a), PacketPayload::Data(b)) => {
                let r = a == b;
                proof {
                    if a@ == b@ {
                        assert(a.eq_spec(b));
                    }
                    if a.eq_spec(b) {
                        assert(a@ =~= b@);
                    }
                }
                r
            }
            _ => false,
        }
    }
}

impl vstd::std_specs::cmp::PartialEqSpecImpl for PacketPayload {
    open spec fn obeys_eq_spec() -> bool {
        true
    }

    open spec fn eq_spec(&self, other: &PacketPayload) -> bool {
        self@ == other@
    }
}

impl PartialEq for Packet {
    fn eq(&self, other: &Packet) -> (r: bool) {
        self.id == other.id && self.protocol_id == other.protocol_id
            && self.payload == other.payload
    }
}

impl vstd::std_specs::cmp::PartialEqSpecImpl for Packet {
    open spec fn obeys_eq_spec() -> bool {
        true
    }

    open spec fn eq_spec(&self, other: &Packet) -> bool {
        self@ == other@
    }
}

} // verus!
