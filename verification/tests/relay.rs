use lemoncuc::handlers::relay::{
    binary_to_stream, browser_to_client, chunk, chunk_to_frame, client_to_browser,
    discard_client_read, keep_draining, terminal_input, Relay, WsEvent, WsMessage,
};

#[test]
fn binary_frames_go_to_the_socket() {
    match binary_to_stream(WsEvent::Received(WsMessage::Binary(vec![1, 2, 3]))) {
        Relay::Forward(d) => assert_eq!(d, vec![1, 2, 3]),
        other => panic!("unexpected {:?}", other),
    }
    assert!(matches!(binary_to_stream(WsEvent::Received(WsMessage::Text("t".into()))), Relay::Skip));
    assert!(matches!(binary_to_stream(WsEvent::Received(WsMessage::Ping(vec![]))), Relay::Skip));
    assert!(matches!(binary_to_stream(WsEvent::Received(WsMessage::Close)), Relay::Stop));
    assert!(matches!(binary_to_stream(WsEvent::Failed), Relay::Stop));
    assert!(matches!(binary_to_stream(WsEvent::Ended), Relay::Stop));
}

#[test]
fn terminal_takes_text_and_binary() {
    match terminal_input(WsEvent::Received(WsMessage::Text("ls é\n".into()))) {
        Relay::Forward(d) => assert_eq!(d, "ls é\n".as_bytes().to_vec()),
        other => panic!("unexpected {:?}", other),
    }
    match terminal_input(WsEvent::Received(WsMessage::Binary(vec![3]))) {
        Relay::Forward(d) => assert_eq!(d, vec![3]),
        other => panic!("unexpected {:?}", other),
    }
    assert!(matches!(terminal_input(WsEvent::Received(WsMessage::Pong(vec![1]))), Relay::Skip));
    assert!(matches!(terminal_input(WsEvent::Received(WsMessage::Close)), Relay::Stop));
    assert!(matches!(terminal_input(WsEvent::Failed), Relay::Stop));
}

#[test]
fn drain_until_close() {
    assert!(keep_draining(&WsEvent::Received(WsMessage::Text("x".into()))));
    assert!(keep_draining(&WsEvent::Received(WsMessage::Binary(vec![]))));
    assert!(!keep_draining(&WsEvent::Received(WsMessage::Close)));
    assert!(!keep_draining(&WsEvent::Failed));
    assert!(!keep_draining(&WsEvent::Ended));
}

#[test]
fn chunks_of_a_read() {
    let buf = [9u8, 8, 7, 6];
    match chunk(&buf, Some(3)) {
        Relay::Forward(d) => assert_eq!(d, vec![9, 8, 7]),
        other => panic!("unexpected {:?}", other),
    }
    assert!(matches!(chunk(&buf, Some(0)), Relay::Stop));
    assert!(matches!(chunk(&buf, None), Relay::Stop));
    match chunk_to_frame(&buf, Some(4)) {
        Relay::Forward(WsMessage::Binary(d)) => assert_eq!(d, vec![9, 8, 7, 6]),
        other => panic!("unexpected {:?}", other),
    }
    assert!(matches!(chunk_to_frame(&buf, Some(0)), Relay::Stop));
    assert!(matches!(chunk_to_frame(&buf, None), Relay::Stop));
}

#[test]
fn audio_client_reads_are_discarded() {
    assert!(matches!(discard_client_read(Some(5)), Relay::Skip));
    assert!(matches!(discard_client_read(Some(0)), Relay::Stop));
    assert!(matches!(discard_client_read(None), Relay::Stop));
}

#[test]
fn devtools_proxy_is_transparent() {
    match client_to_browser(WsEvent::Received(WsMessage::Text("{\"id\":1}".into()))) {
        Relay::Forward(WsMessage::Text(t)) => assert_eq!(t, "{\"id\":1}"),
        other => panic!("unexpected {:?}", other),
    }
    match browser_to_client(WsEvent::Received(WsMessage::Ping(vec![4]))) {
        Relay::Forward(WsMessage::Ping(d)) => assert_eq!(d, vec![4]),
        other => panic!("unexpected {:?}", other),
    }
    match browser_to_client(WsEvent::Received(WsMessage::Binary(vec![1]))) {
        Relay::Forward(WsMessage::Binary(d)) => assert_eq!(d, vec![1]),
        other => panic!("unexpected {:?}", other),
    }
    assert!(matches!(browser_to_client(WsEvent::Received(WsMessage::RawFrame)), Relay::Skip));
    assert!(matches!(browser_to_client(WsEvent::Received(WsMessage::Close)), Relay::Stop));
    assert!(matches!(client_to_browser(WsEvent::Received(WsMessage::Close)), Relay::Stop));
    assert!(matches!(client_to_browser(WsEvent::Ended), Relay::Stop));
    assert!(matches!(browser_to_client(WsEvent::Failed), Relay::Stop));
}
