//! A minimal private tunnel: the bridging engine that links two hosts into a
//! virtual point-to-point segment.
//!
//! The crate holds the wire packet format with its codec, the handshake and
//! liveness state machine, the per-event decisions of the duplex relay loop,
//! and the shared status surface read by an external control surface.  The
//! I/O itself (the UDP socket and the virtual interface) is driven by the
//! embedding program, which feeds each completed read into the relay
//! decisions and carries out the actions they return.

pub mod bridge;
pub mod config;
pub mod handshake;
pub mod packet;
pub mod status;
