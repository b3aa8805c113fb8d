use mini_lan_bridge::bridge::{Config, Endpoint};
use mini_lan_bridge::config::parse_endpoint;

#[test]
fn parses_a_plain_address() {
    assert_eq!(
        parse_endpoint(b"10.0.0.1:9000"),
        Some(Endpoint { ip0: 10, ip1: 0, ip2: 0, ip3: 1, port: 9000 })
    );
}

#[test]
fn parses_extreme_values() {
    assert_eq!(
        parse_endpoint(b"255.255.255.255:65535"),
        Some(Endpoint { ip0: 255, ip1: 255, ip2: 255, ip3: 255, port: 65535 })
    );
    assert_eq!(
        parse_endpoint(b"0.0.0.0:0"),
        Some(Endpoint { ip0: 0, ip1: 0, ip2: 0, ip3: 0, port: 0 })
    );
}

#[test]
fn accepts_leading_zeros() {
    assert_eq!(
        parse_endpoint(b"010.001.000.009:00080"),
        Some(Endpoint { ip0: 10, ip1: 1, ip2: 0, ip3: 9, port: 80 })
    );
}

#[test]
fn rejects_malformed_text() {
    assert_eq!(parse_endpoint(b""), None);
    assert_eq!(parse_endpoint(b"10.0.0.1"), None); // no port
    assert_eq!(parse_endpoint(b"10.0.0:9000"), None); // three octets
    assert_eq!(parse_endpoint(b"10.0.0.1.5:9000"), None); // five octets
    assert_eq!(parse_endpoint(b"10.0.0.256:9000"), None); // octet too large
    assert_eq!(parse_endpoint(b"1000.0.0.1:9000"), None); // octet too long
    assert_eq!(parse_endpoint(b"10.0.0.1:65536"), None); // port too large
    assert_eq!(parse_endpoint(b"10.0.0.1:123456"), None); // port too long
    assert_eq!(parse_endpoint(b"10.0.0.1:"), None); // empty port
    assert_eq!(parse_endpoint(b"a.b.c.d:80"), None); // not digits
    assert_eq!(parse_endpoint(b"10.0.0.1:9a"), None); // port not digits
    assert_eq!(parse_endpoint(b"10..0.1:9000"), None); // empty octet
}

#[test]
fn config_from_text_needs_both_addresses() {
    let config = Config::from_text(b"0.0.0.0:9000", b"192.168.1.50:9000").expect("both parse");
    assert_eq!(config.bind_addr, Endpoint { ip0: 0, ip1: 0, ip2: 0, ip3: 0, port: 9000 });
    assert_eq!(config.peer_addr, Endpoint { ip0: 192, ip1: 168, ip2: 1, ip3: 50, port: 9000 });
    assert!(Config::from_text(b"0.0.0.0:9000", b"not an address").is_none());
    assert!(Config::from_text(b"bad", b"192.168.1.50:9000").is_none());
}
