use rsocket_transport_iroh::client::IrohClientTransport;
use rsocket_transport_iroh::config::rsocket_alpn;
use rsocket_transport_iroh::config::IrohConfig;
use rsocket_transport_iroh::connection::IrohConnectionWithStreams;
use rsocket_transport_iroh::connection::StreamError;
use rsocket_transport_iroh::error::prefixed;
use rsocket_transport_iroh::error::TransportError;
use rsocket_transport_iroh::queue::PendingConnectionQueue;
use rsocket_transport_iroh::server::IrohServerTransport;
use rsocket_transport_iroh::server::PullAction;

#[test]
fn protocol_identifier_is_fixed() {
    assert_eq!(rsocket_alpn(), b"rsocket/1".to_vec());
    assert_eq!(IrohConfig::default().protocol_id, b"rsocket/1".to_vec());
}

#[test]
fn default_settings() {
    let config = IrohConfig::default();
    assert_eq!(config.bind_addr, None);
    assert!(config.enable_discovery);
    assert!(config.enable_relay);
}

#[test]
fn prefixed_puts_prefix_first() {
    assert_eq!(prefixed("a: ", "b"), "a: b");
    assert_eq!(prefixed("", ""), "");
}

#[test]
fn queue_is_first_in_first_out() {
    let mut queue = PendingConnectionQueue::new();
    assert!(queue.is_empty());
    assert!(!queue.is_closed());
    assert_eq!(queue.pop(), None);
    assert!(queue.push(5));
    assert!(queue.push(4));
    assert!(queue.push(5));
    assert_eq!(queue.len(), 3);
    assert_eq!(queue.pop(), Some(5));
    assert_eq!(queue.pop(), Some(4));
    assert_eq!(queue.pop(), Some(5));
    assert_eq!(queue.pop(), None);
}

#[test]
fn closed_queue_refuses_and_drains() {
    let mut queue = PendingConnectionQueue::new();
    assert!(queue.push(1));
    queue.close();
    assert!(queue.is_closed());
    assert!(!queue.is_drained());
    assert!(!queue.push(2));
    assert_eq!(queue.len(), 1);
    assert_eq!(queue.pop(), Some(1));
    assert!(queue.is_drained());
    assert_eq!(queue.pop(), None);
}

#[test]
fn dial_failure_ends_the_attempt() {
    match IrohClientTransport::dialed(Err("no route".to_string())) {
        Err(TransportError::Dial(text)) => assert_eq!(text, "Failed to connect: no route"),
        other => panic!("unexpected result: {:?}", other),
    }
    assert_eq!(IrohClientTransport::dialed(Ok(77)).ok(), Some(77));
}

#[test]
fn stream_open_failure_ends_the_attempt() {
    match IrohClientTransport::opened(Err("refused".to_string())) {
        Err(TransportError::StreamOpen(text)) => {
            assert_eq!(text, "Failed to open bidirectional stream: refused")
        }
        other => panic!("unexpected result: {:?}", other),
    }
}

#[test]
fn initiator_and_acceptor_hold_the_same_transport() {
    let dialed = IrohClientTransport::opened(Ok((3, 4))).expect("opened").into_connection();
    let accepted = IrohClientTransport::accepted(Ok((3, 4))).expect("accepted").into_connection();
    assert_eq!(dialed.send_stream(), accepted.send_stream());
    assert_eq!(dialed.recv_stream(), accepted.recv_stream());
    assert_eq!(dialed.can_send(), accepted.can_send());
    assert_eq!(dialed.can_receive(), accepted.can_receive());
    assert!(dialed.can_send());
    assert!(dialed.can_receive());
    assert_eq!(dialed.send_stream(), 3);
    assert_eq!(dialed.recv_stream(), 4);
}

#[test]
fn half_close_leaves_receiving_open() {
    let mut duplex = IrohConnectionWithStreams::new(1, 2);
    duplex.shutdown_send();
    assert!(!duplex.can_send());
    assert!(duplex.can_receive());
    assert!(matches!(duplex.write(vec![1]), Err(StreamError::SendClosed)));
    let chunk = duplex.read(Ok(Some(vec![9, 8]))).expect("a chunk");
    assert_eq!(chunk, Some(vec![9, 8]));
}

#[test]
fn end_of_stream_leaves_sending_open() {
    let mut duplex = IrohConnectionWithStreams::new(1, 2);
    assert_eq!(duplex.read(Ok(None)).expect("end of stream"), None);
    assert!(!duplex.can_receive());
    assert!(duplex.can_send());
    assert_eq!(duplex.write(vec![1, 2, 3]).expect("bytes"), vec![1, 2, 3]);
    assert_eq!(duplex.read(Ok(Some(vec![7]))).expect("ended"), None);
}

#[test]
fn network_failure_is_a_stream_failure() {
    let mut duplex = IrohConnectionWithStreams::new(1, 2);
    match duplex.read(Err("reset by peer".to_string())) {
        Err(StreamError::Network(text)) => assert_eq!(text, "reset by peer"),
        other => panic!("unexpected result: {:?}", other),
    }
    assert!(duplex.can_receive());
    assert!(duplex.can_send());
}

#[test]
fn four_bytes_pass_through_unchanged() {
    let mut server = IrohServerTransport::from(IrohConfig::new(
        Some("127.0.0.1:0".to_string()),
        true,
        true,
    ));
    assert!(server.finish_start(Ok("server-node".to_string())).is_ok());
    let node_id = server.node_id().expect("started");
    assert_eq!(node_id, "server-node");

    let connection = IrohClientTransport::dialed(Ok(1)).expect("dialed");
    let client = IrohClientTransport::opened(Ok((100, 101))).expect("opened").into_connection();
    assert!(server.accept(connection).is_ok());
    assert_eq!(server.next(), PullAction::AcceptStream(1));
    let mut accepted = server
        .finish_pull(Ok((200, 201)))
        .expect("a connection was queued")
        .expect("its stream was accepted")
        .into_connection();

    let payload: Vec<u8> = vec![0xde, 0xad, 0xbe, 0xef];
    let on_the_wire = client.write(payload.clone()).expect("send half is open");
    assert_eq!(on_the_wire, payload);
    let received = accepted.read(Ok(Some(on_the_wire))).expect("receive half is open");
    assert_eq!(received, Some(vec![0xde, 0xad, 0xbe, 0xef]));
    assert_eq!(received.map(|bytes| bytes.len()), Some(4));
}

#[test]
fn empty_write_passes_through() {
    let duplex = IrohConnectionWithStreams::new(1, 2);
    assert_eq!(duplex.write(Vec::new()).expect("bytes"), Vec::<u8>::new());
}

#[test]
fn dial_goes_out_under_the_configured_identifier() {
    let mut config = IrohConfig::default();
    let request = IrohClientTransport::dial_request(&config, "peer-1".to_string());
    assert_eq!(request.remote, "peer-1");
    assert_eq!(request.protocol_id, b"rsocket/1".to_vec());
    config.protocol_id = vec![1, 2, 3];
    let request = IrohClientTransport::dial_request(&config, "peer-2".to_string());
    assert_eq!(request.remote, "peer-2");
    assert_eq!(request.protocol_id, vec![1, 2, 3]);
}

#[test]
fn looking_at_the_front_takes_nothing() {
    let mut queue = PendingConnectionQueue::new();
    assert_eq!(queue.front(), None);
    assert!(queue.push(11));
    assert!(queue.push(12));
    assert_eq!(queue.front(), Some(11));
    assert_eq!(queue.front(), Some(11));
    assert_eq!(queue.len(), 2);
    assert!(queue.push(13));
    assert_eq!(queue.len(), 3);
    queue.close();
    assert!(!queue.is_drained());
    assert_eq!(queue.pop(), Some(11));
    assert_eq!(queue.front(), Some(12));
    assert_eq!(queue.pop(), Some(12));
    assert_eq!(queue.pop(), Some(13));
    assert_eq!(queue.front(), None);
    assert!(queue.is_drained());
}
