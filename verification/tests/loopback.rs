//! Round-trip scenarios: each test drives the two background loops by hand,
//! one iteration at a time — the dequeue of an outbound message and the
//! delivery of an inbound datagram are the library's own steps; the wire
//! between them carries the payload bytes and the sender's bound address,
//! as UDP does.

use async_net::UdpSocket;
use futures_lite::future;
use udp_relay::Message;
use udp_relay::Network;
use udp_relay::SocketAddr;
use udp_relay::await_dequeue;
use udp_relay::recv_message;

/// One iteration of the send loop followed by the transport: takes the
/// oldest outbound message and returns what arrives at its target — the
/// payload bytes, tagged with the sending relay's bound address.
fn pump_wire(outbound: &flume::Receiver<Message>, sender_bound: SocketAddr) -> (SocketAddr, Vec<u8>, SocketAddr) {
    let m = match await_dequeue(outbound) {
        Ok(m) => m,
        Err(_) => panic!("an outbound message must be pending"),
    };
    (*m.address(), m.payload().clone(), sender_bound)
}

#[test]
fn loopback_round_trip() {
    let own_addr = Network::parse_socket_addr("127.0.0.1:9005");
    let mut net = Network::new();
    let ends = net.startup();

    assert!(net.try_send(Message::new(own_addr, b"ping".to_vec())).is_ok());
    let (target, bytes, source) = pump_wire(&ends.outbound, own_addr);
    assert_eq!(target, own_addr);
    // One iteration of the receive loop on the relay's own socket.
    assert!(recv_message(source, bytes, &ends.inbound).is_ok());

    let got = match net.try_recv() {
        Ok(m) => m,
        Err(_) => panic!("the datagram must have been delivered"),
    };
    assert_eq!(got.payload(), &b"ping".to_vec());
    assert_eq!(*got.address(), own_addr);
}

#[test]
fn two_relays_ping_pong() {
    let addr_a = Network::parse_socket_addr("127.0.0.1:9001");
    let addr_b = Network::parse_socket_addr("127.0.0.1:9002");

    let mut net_a = Network::new();
    let ends_a = net_a.startup();
    let mut net_b = Network::new();
    let ends_b = net_b.startup();

    assert!(net_a.try_send(Message::new(addr_b, b"ping".to_vec())).is_ok());
    let (target, bytes, source) = pump_wire(&ends_a.outbound, addr_a);
    assert_eq!(target, addr_b);
    assert!(recv_message(source, bytes, &ends_b.inbound).is_ok());

    let got_b = match net_b.try_recv() {
        Ok(m) => m,
        Err(_) => panic!("the ping must have been delivered"),
    };
    assert_eq!(got_b.payload(), &b"ping".to_vec());
    assert_eq!(*got_b.address(), addr_a);

    assert!(net_b.try_send(Message::new(*got_b.address(), b"pong".to_vec())).is_ok());
    let (target, bytes, source) = pump_wire(&ends_b.outbound, addr_b);
    assert_eq!(target, addr_a);
    assert!(recv_message(source, bytes, &ends_a.inbound).is_ok());

    let got_a = match net_a.try_recv() {
        Ok(m) => m,
        Err(_) => panic!("the pong must have been delivered"),
    };
    assert_eq!(got_a.payload(), &b"pong".to_vec());
    assert_eq!(*got_a.address(), addr_b);
}

#[test]
fn second_bind_to_same_address_fails() {
    let keep = future::block_on(UdpSocket::bind("127.0.0.1:9003")).unwrap();
    let second = future::block_on(UdpSocket::bind("127.0.0.1:9003"));
    assert!(second.is_err());
    drop(keep);
}
