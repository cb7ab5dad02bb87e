use api_client::error::Error;
use api_client::ws::{
    check_upgrade, upgrade_request, Inbound, Message, Next, Phase, Signal, WsError, WsStream,
};

#[test]
fn upgrade_request_carries_handshake_headers() {
    let r = upgrade_request("wss://example.com/ws", "TotallyRandomBytesHere==");
    assert_eq!(r.method, "GET");
    assert_eq!(r.uri, "wss://example.com/ws");
    assert!(r.body.data.is_none());
    let hs: Vec<(String, String)> =
        r.headers.iter().map(|h| (h.name.clone(), h.value.clone())).collect();
    let want: Vec<(String, String)> = vec![
        ("connection", "Upgrade"),
        ("upgrade", "websocket"),
        ("sec-websocket-version", "13"),
        ("sec-websocket-key", "TotallyRandomBytesHere=="),
    ]
    .into_iter()
    .map(|(a, b)| (a.to_string(), b.to_string()))
    .collect();
    assert_eq!(hs, want);
}

#[test]
fn only_switching_protocols_upgrades() {
    assert!(check_upgrade(101).is_ok());
    assert!(matches!(check_upgrade(200), Err(Error::Status { status: 200 })));
    assert!(matches!(check_upgrade(204), Err(Error::Status { status: 204 })));
    assert!(matches!(check_upgrade(404), Err(Error::Status { status: 404 })));
}

#[test]
fn close_before_open_fails_connect() {
    assert!(matches!(WsStream::connect(Signal::Close), Err(Error::Download { .. })));
    assert!(matches!(WsStream::connect(Signal::Error), Err(Error::Download { .. })));
}

fn text(n: &Next) -> Option<String> {
    match n {
        Next::Message(Message::Text(t)) => Some(t.clone()),
        _ => None,
    }
}

#[test]
fn open_stream_delivers_in_order_then_close_once() {
    let mut s = match WsStream::connect(Signal::Open) {
        Ok(s) => s,
        Err(_) => panic!("open first must connect"),
    };
    assert!(s.phase() == Phase::Open);
    assert!(matches!(s.poll_next(None), Next::Pending));
    let a = s.poll_next(Some(Inbound::Message(Message::Text("a".to_string()))));
    let b = s.poll_next(Some(Inbound::Message(Message::Text("b".to_string()))));
    assert_eq!(text(&a), Some("a".to_string()));
    assert_eq!(text(&b), Some("b".to_string()));
    assert!(matches!(s.poll_next(Some(Inbound::Close)), Next::Closed));
    assert!(matches!(s.poll_next(Some(Inbound::Error)), Next::End));
    assert!(matches!(s.poll_next(Some(Inbound::Close)), Next::End));
    assert!(s.phase() == Phase::Closed);
}

#[test]
fn error_ends_the_stream() {
    let mut s = WsStream::connect(Signal::Open).ok().unwrap();
    assert!(matches!(s.poll_next(Some(Inbound::Error)), Next::Errored));
    assert!(matches!(s.poll_next(None), Next::End));
}

#[test]
fn send_only_while_open() {
    let mut s = WsStream::connect(Signal::Open).ok().unwrap();
    match s.start_send(Message::Text("hi".to_string())) {
        Ok(t) => assert_eq!(t, "hi"),
        Err(_) => panic!("an open stream sends"),
    }
    s.poll_next(Some(Inbound::Close));
    assert!(!s.close());
    assert!(matches!(s.start_send(Message::Text("late".to_string())), Err(WsError::NotOpen)));
}

#[test]
fn close_ends_the_stream_and_release_is_then_a_no_op() {
    let mut s = WsStream::connect(Signal::Open).ok().unwrap();
    assert!(s.close());
    assert!(s.phase() == Phase::Closed);
    assert!(!s.release());
    assert!(!s.close());
    assert!(matches!(s.poll_next(None), Next::End));
    assert!(matches!(s.poll_next(Some(Inbound::Close)), Next::End));
    assert!(matches!(s.start_send(Message::Text("late".to_string())), Err(WsError::NotOpen)));
}

#[test]
fn many_messages_then_error_in_order() {
    let mut s = WsStream::connect(Signal::Open).ok().unwrap();
    for i in 0..5 {
        let n = s.poll_next(Some(Inbound::Message(Message::Text(i.to_string()))));
        assert_eq!(text(&n), Some(i.to_string()));
    }
    assert!(matches!(s.poll_next(Some(Inbound::Error)), Next::Errored));
    for _ in 0..3 {
        assert!(matches!(s.poll_next(Some(Inbound::Close)), Next::End));
    }
}

#[test]
fn release_happens_once() {
    let mut s = WsStream::connect(Signal::Open).ok().unwrap();
    assert!(s.release());
    assert!(!s.release());
    assert!(matches!(s.poll_next(Some(Inbound::Message(Message::Text("x".to_string())))), Next::End));
}

#[test]
fn release_after_close_is_a_no_op() {
    let mut s = WsStream::connect(Signal::Open).ok().unwrap();
    s.poll_next(Some(Inbound::Close));
    assert!(!s.release());
}
