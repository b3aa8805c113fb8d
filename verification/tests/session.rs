use mini_lan_bridge::bridge::{Bridge, Config, Endpoint, InboundAction, LoopDecision, StopReason};
use mini_lan_bridge::handshake::{ConnState, HANDSHAKE_TIMEOUT_MS};
use mini_lan_bridge::packet::{ControlMessage, Packet, PacketPayload};
use mini_lan_bridge::status::AppState;

fn addr_a() -> Endpoint {
    Endpoint { ip0: 10, ip1: 0, ip2: 0, ip3: 1, port: 9000 }
}

fn addr_b() -> Endpoint {
    Endpoint { ip0: 10, ip1: 0, ip2: 0, ip3: 2, port: 9000 }
}

fn session_a() -> (Bridge, Vec<u8>) {
    let config = Config { bind_addr: addr_a(), peer_addr: addr_b() };
    Bridge::start(&config, AppState::new(String::new()), 0)
}

fn session_b() -> (Bridge, Vec<u8>) {
    let config = Config { bind_addr: addr_b(), peer_addr: addr_a() };
    Bridge::start(&config, AppState::new(String::new()), 0)
}

fn decoded_control(bytes: &[u8]) -> ControlMessage {
    match Packet::decode(bytes).expect("control datagram must decode").payload {
        PacketPayload::Control(m) => m,
        PacketPayload::Data(_) => panic!("expected a control payload"),
    }
}

#[test]
fn start_sends_hello_and_connects_nothing() {
    let (a, hello) = session_a();
    assert_eq!(a.conn, ConnState::Connecting { since_ms: 0 });
    assert!(!a.status.connected);
    assert_eq!(decoded_control(&hello), ControlMessage::Hello);
    assert_eq!(a.status.logs.as_slice(), ["sending hello"]);
}

#[test]
fn full_handshake_then_frame_relay() {
    // A opens toward B; B opens toward A; then B sees A's hello.
    let (mut a, hello_a) = session_a();
    let (mut b, _hello_b) = session_b();

    let ack = match b.handle_datagram(addr_a(), &hello_a) {
        InboundAction::Reply(bytes) => bytes,
        _ => panic!("a hello must be answered"),
    };
    assert_eq!(decoded_control(&ack), ControlMessage::HelloAck);
    // Responding does not connect B; its own hello is still unanswered.
    assert_eq!(b.conn, ConnState::Connecting { since_ms: 0 });

    // A takes the acknowledgement and is connected within the window.
    match a.handle_datagram(addr_b(), &ack) {
        InboundAction::Noted => {}
        _ => panic!("an acknowledgement needs no reply"),
    }
    assert_eq!(a.conn, ConnState::Connected);
    assert!(a.status.connected);
    assert_eq!(a.status.logs.last().unwrap(), "connected");

    // A frame written on A's interface appears verbatim on B's side.
    let frame = vec![0xDE, 0xAD, 0x01, 0x02, 0x03];
    let datagram = a.outbound_frame(frame.clone());
    match b.handle_datagram(addr_a(), &datagram) {
        InboundAction::Deliver(delivered) => assert_eq!(delivered, frame),
        _ => panic!("a data payload must be delivered"),
    }
}

#[test]
fn datagram_from_stranger_never_reaches_the_interface() {
    let (mut b, _) = session_b();
    let stranger = Endpoint { ip0: 203, ip1: 0, ip2: 113, ip3: 77, port: 4444 };
    // A perfectly valid data packet, but not from the configured peer.
    let datagram = Packet::data(vec![1, 2, 3]).encode();
    let logs_before = b.status.logs.clone();
    match b.handle_datagram(stranger, &datagram) {
        InboundAction::DroppedNotPeer => {}
        _ => panic!("a stranger's datagram must be dropped"),
    }
    // Dropped silently: not even a log entry.
    assert_eq!(b.status.logs, logs_before);
}

#[test]
fn malformed_datagram_is_logged_and_dropped() {
    let (mut b, _) = session_b();
    match b.handle_datagram(addr_a(), &[1, 2, 3]) {
        InboundAction::DroppedMalformed(_) => {}
        _ => panic!("garbage must be dropped"),
    }
    assert_eq!(b.status.logs.last().unwrap(), "dropped malformed datagram");
}

#[test]
fn handshake_timeout_reports_once_and_disconnects() {
    let (mut a, _) = session_a();
    // Just inside the window the attempt is still alive.
    assert_eq!(a.poll(false, HANDSHAKE_TIMEOUT_MS - 1), LoopDecision::Continue);
    // At the bound it is aborted.
    assert_eq!(
        a.poll(false, HANDSHAKE_TIMEOUT_MS),
        LoopDecision::Stop(StopReason::HandshakeTimeout)
    );
    assert_eq!(a.conn, ConnState::Disconnected);
    assert!(!a.status.connected);
    let timeouts = a.status.logs.iter().filter(|m| m.as_str() == "connection timeout").count();
    assert_eq!(timeouts, 1);
}

#[test]
fn connected_session_never_times_out() {
    let (mut a, _) = session_a();
    let ack = Packet::hello_ack().encode();
    a.handle_datagram(addr_b(), &ack);
    assert_eq!(a.conn, ConnState::Connected);
    assert_eq!(a.poll(false, HANDSHAKE_TIMEOUT_MS * 10), LoopDecision::Continue);
}

#[test]
fn shutdown_wins_over_everything_and_stops_the_loop() {
    let (mut a, _) = session_a();
    assert_eq!(a.poll(true, 0), LoopDecision::Stop(StopReason::ShutdownRequested));
    assert_eq!(a.conn, ConnState::Disconnected);
    assert!(!a.status.connected);
    assert_eq!(a.status.logs.last().unwrap(), "network loop stopped");
}

#[test]
fn ping_is_answered_with_pong() {
    let (mut b, _) = session_b();
    let ping = Packet::ping().encode();
    let reply = match b.handle_datagram(addr_a(), &ping) {
        InboundAction::Reply(bytes) => bytes,
        _ => panic!("a ping must be answered"),
    };
    assert_eq!(decoded_control(&reply), ControlMessage::Pong);
}

#[test]
fn pong_is_noted_only() {
    let (mut b, _) = session_b();
    let pong = Packet::pong().encode();
    match b.handle_datagram(addr_a(), &pong) {
        InboundAction::Noted => {}
        _ => panic!("a pong needs no reply"),
    }
    assert_eq!(b.status.logs.last().unwrap(), "pong received");
}

#[test]
fn transient_io_error_is_survived() {
    let (mut a, _) = session_a();
    assert_eq!(a.handle_io_error(false), LoopDecision::Continue);
    assert_eq!(a.conn, ConnState::Connecting { since_ms: 0 });
    assert_eq!(a.status.logs.last().unwrap(), "io error");
}

#[test]
fn fatal_io_error_ends_the_session() {
    let (mut a, _) = session_a();
    assert_eq!(a.handle_io_error(true), LoopDecision::Stop(StopReason::FatalIo));
    assert_eq!(a.conn, ConnState::Disconnected);
    assert!(!a.status.connected);
    assert_eq!(a.status.logs.last().unwrap(), "fatal io error");
}
