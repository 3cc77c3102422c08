use udp_relay::Network;
use udp_relay::SocketAddr;
use udp_relay::try_parse_socket_addr;

#[test]
fn parses_a_plain_address() {
    let got = try_parse_socket_addr("127.0.0.1:34243");
    assert_eq!(got, Some(SocketAddr { a: 127, b: 0, c: 0, d: 1, port: 34243 }));
}

#[test]
fn parses_the_extremes() {
    assert_eq!(
        try_parse_socket_addr("0.0.0.0:0"),
        Some(SocketAddr { a: 0, b: 0, c: 0, d: 0, port: 0 })
    );
    assert_eq!(
        try_parse_socket_addr("255.255.255.255:65535"),
        Some(SocketAddr { a: 255, b: 255, c: 255, d: 255, port: 65535 })
    );
}

#[test]
fn network_parse_socket_addr_agrees() {
    let got = Network::parse_socket_addr("10.0.0.2:9001");
    assert_eq!(got, SocketAddr { a: 10, b: 0, c: 0, d: 2, port: 9001 });
}

#[test]
fn renders_and_round_trips() {
    let a = SocketAddr { a: 127, b: 0, c: 0, d: 1, port: 34243 };
    assert_eq!(a.as_string(), "127.0.0.1:34243");
    assert_eq!(try_parse_socket_addr(&a.as_string()), Some(a));
    let b = SocketAddr { a: 0, b: 10, c: 200, d: 255, port: 0 };
    assert_eq!(b.as_string(), "0.10.200.255:0");
    assert_eq!(try_parse_socket_addr(&b.as_string()), Some(b));
}

#[test]
fn rejects_missing_parts() {
    assert_eq!(try_parse_socket_addr(""), None);
    assert_eq!(try_parse_socket_addr("127.0.0.1"), None);
    assert_eq!(try_parse_socket_addr("1.2.3:4"), None);
    assert_eq!(try_parse_socket_addr("1.2.3.4:"), None);
    assert_eq!(try_parse_socket_addr(".2.3.4:5"), None);
}

#[test]
fn rejects_out_of_range_values() {
    assert_eq!(try_parse_socket_addr("256.0.0.1:80"), None);
    assert_eq!(try_parse_socket_addr("1.2.3.4:65536"), None);
    assert_eq!(try_parse_socket_addr("1.2.3.999:80"), None);
}

#[test]
fn rejects_leading_zeros_and_stray_text() {
    assert_eq!(try_parse_socket_addr("01.2.3.4:5"), None);
    assert_eq!(try_parse_socket_addr("1.2.3.4:007"), None);
    assert_eq!(try_parse_socket_addr("a.b.c.d:e"), None);
    assert_eq!(try_parse_socket_addr("1.2.3.4.5:6"), None);
    assert_eq!(try_parse_socket_addr("1.2.3.4:5:6"), None);
    assert_eq!(try_parse_socket_addr("1.2.3.4:5 "), None);
}
