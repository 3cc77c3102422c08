use udp_relay::AsyncChannel;
use udp_relay::BUFFER_MAX_SIZE;
use udp_relay::Message;
use udp_relay::Network;
use udp_relay::ReadErrorAction;
use udp_relay::ReadFailure;
use udp_relay::RecvError;
use udp_relay::SendStepAction;
use udp_relay::SocketAddr;
use udp_relay::TryRecvError;
use udp_relay::send_loop_decision;
use udp_relay::await_dequeue;
use udp_relay::classify_read_error;
use udp_relay::enqueue;
use udp_relay::inbound_message;
use udp_relay::recv_message;
use udp_relay::try_dequeue;

fn addr(port: u16) -> SocketAddr {
    SocketAddr { a: 127, b: 0, c: 0, d: 1, port }
}

#[test]
fn try_recv_on_a_fresh_relay_is_empty() {
    let net = Network::new();
    match net.try_recv() {
        Err(e) => assert_eq!(e, TryRecvError::Empty),
        Ok(_) => panic!("a fresh relay has no pending message"),
    }
}

#[test]
fn enqueue_after_receivers_dropped_disconnects() {
    let ch = AsyncChannel::new();
    let AsyncChannel { sender, receiver } = ch;
    drop(receiver);
    match enqueue(&sender, Message::new(addr(7000), b"seven".to_vec())) {
        Err(e) => {
            assert_eq!(e.0.payload(), &b"seven".to_vec());
            assert_eq!(*e.0.address(), addr(7000));
        }
        Ok(()) => panic!("expected a disconnected result"),
    }
}

#[test]
fn dequeue_after_senders_dropped_disconnects() {
    let ch = AsyncChannel::new();
    let AsyncChannel { sender, receiver } = ch;
    assert!(enqueue(&sender, Message::new(addr(7001), vec![1])).is_ok());
    drop(sender);
    // The pending item is still delivered; only then is the queue reported
    // disconnected, by probe and by blocking dequeue alike.
    match try_dequeue(&receiver) {
        Ok(m) => assert_eq!(m.payload(), &vec![1]),
        Err(_) => panic!("the pending item must still be delivered"),
    }
    assert!(matches!(try_dequeue(&receiver), Err(TryRecvError::Disconnected)));
    assert!(await_dequeue(&receiver).is_err());
}

#[test]
fn send_loop_transmits_what_it_dequeues() {
    let m = Message::new(addr(8000), b"out".to_vec());
    match send_loop_decision(Ok(m)) {
        SendStepAction::Transmit(t) => {
            assert_eq!(t.payload(), &b"out".to_vec());
            assert_eq!(*t.address(), addr(8000));
        }
        SendStepAction::ReportDisconnect => panic!("a dequeued message is transmitted"),
    }
    assert!(matches!(
        send_loop_decision(Err(RecvError::Disconnected)),
        SendStepAction::ReportDisconnect
    ));
}

#[test]
fn outbound_messages_keep_their_order() {
    let mut net = Network::new();
    let ends = net.startup();
    for i in 0..3u8 {
        assert!(net.try_send(Message::new(addr(9000 + i as u16), vec![i])).is_ok());
    }
    for i in 0..3u8 {
        let m = match await_dequeue(&ends.outbound) {
            Ok(m) => m,
            Err(_) => panic!("an enqueued message must be pending"),
        };
        assert_eq!(m.payload(), &vec![i]);
        assert_eq!(m.address().port, 9000 + i as u16);
    }
}

#[test]
fn queue_hands_items_through_unchanged() {
    let ch = AsyncChannel::new();
    assert!(recv_message(addr(5000), b"abc".to_vec(), &ch.sender).is_ok());
    let m = match try_dequeue(&ch.receiver) {
        Ok(m) => m,
        Err(_) => panic!("the delivered message must be pending"),
    };
    assert_eq!(m.payload(), &b"abc".to_vec());
    assert_eq!(*m.address(), addr(5000));
    match try_dequeue(&ch.receiver) {
        Err(e) => assert_eq!(e, TryRecvError::Empty),
        Ok(_) => panic!("only one message was delivered"),
    }
}

#[test]
fn oversized_datagram_is_truncated() {
    let data = vec![9u8; BUFFER_MAX_SIZE + 500];
    let m = inbound_message(addr(6000), data.clone());
    assert_eq!(m.payload().len(), BUFFER_MAX_SIZE);
    assert_eq!(m.payload(), &data[..BUFFER_MAX_SIZE].to_vec());
    let small = inbound_message(addr(6000), b"tiny".to_vec());
    assert_eq!(small.payload(), &b"tiny".to_vec());
}

#[test]
fn oversized_datagram_is_truncated_through_the_queue() {
    let ch = AsyncChannel::new();
    let data = vec![3u8; BUFFER_MAX_SIZE + 1];
    assert!(recv_message(addr(6001), data, &ch.sender).is_ok());
    let m = match try_dequeue(&ch.receiver) {
        Ok(m) => m,
        Err(_) => panic!("the delivered message must be pending"),
    };
    assert_eq!(m.payload().len(), BUFFER_MAX_SIZE);
}

#[test]
fn connection_reset_is_ignored_and_other_errors_reported() {
    assert_eq!(classify_read_error(ReadFailure::ConnectionReset), ReadErrorAction::Ignore);
    assert_eq!(classify_read_error(ReadFailure::Other), ReadErrorAction::Report);
}
