use wsock::error::{ConnectionError, RecvError, SendError};
use wsock::message::SocketMessage;
use wsock::native::{Frame, FrameAction};
use wsock::socket::{ReadyState, SendAction, Socket};

fn fresh() -> Socket {
    match Socket::new(true) {
        Ok(s) => s,
        Err(_) => panic!("a created transport gives a socket"),
    }
}

fn opened() -> Socket {
    let mut s = fresh();
    assert!(s.on_open().is_empty());
    s
}

fn text(m: &SocketMessage) -> Option<&str> {
    match m {
        SocketMessage::Text(t) => Some(t.as_str()),
        SocketMessage::Binary(_) => None,
    }
}

fn binary(m: &SocketMessage) -> Option<&[u8]> {
    match m {
        SocketMessage::Binary(b) => Some(b.as_slice()),
        SocketMessage::Text(_) => None,
    }
}

#[test]
fn creation_failure_is_reported() {
    assert!(matches!(Socket::new(false), Err(ConnectionError::CreationFailed)));
}

#[test]
fn send_before_open_is_flushed_once() {
    let mut s = fresh();
    assert!(matches!(s.send("hello".to_string(), ReadyState::Connecting), Ok(SendAction::Deferred)));
    let out = s.on_open();
    assert_eq!(out.len(), 1);
    assert_eq!(text(&out[0]), Some("hello"));
    assert!(s.on_open().is_empty());
}

#[test]
fn pending_sends_keep_their_order() {
    let mut s = fresh();
    assert!(s.send("a".to_string(), ReadyState::Connecting).is_ok());
    assert!(s.send_binary(vec![7, 8], ReadyState::Connecting).is_ok());
    assert!(s.send("c".to_string(), ReadyState::Connecting).is_ok());
    let out = s.on_open();
    assert_eq!(out.len(), 3);
    assert_eq!(text(&out[0]), Some("a"));
    assert_eq!(binary(&out[1]), Some(&[7u8, 8][..]));
    assert_eq!(text(&out[2]), Some("c"));
}

#[test]
fn send_when_open_delivers_now() {
    let mut s = opened();
    match s.send_binary(vec![1, 2], ReadyState::Open) {
        Ok(SendAction::Deliver(m)) => assert_eq!(binary(&m), Some(&[1u8, 2][..])),
        other => panic!("unexpected {:?}", other),
    }
    match s.send("x".to_string(), ReadyState::Open) {
        Ok(SendAction::Deliver(m)) => assert_eq!(text(&m), Some("x")),
        other => panic!("unexpected {:?}", other),
    }
    assert!(s.on_open().is_empty());
}

#[test]
fn send_when_closed_is_refused() {
    let mut s = opened();
    assert!(matches!(s.send("x".to_string(), ReadyState::Closing), Err(SendError::Closed)));
    assert!(matches!(s.send_binary(vec![1], ReadyState::Closed), Err(SendError::Closed)));
}

#[test]
fn arrivals_are_drained_in_order() {
    let mut s = opened();
    s.on_message(SocketMessage::Binary(vec![1, 2, 3]));
    s.on_message(SocketMessage::Text("hi".to_string()));
    let got = s.recv_all().unwrap();
    assert_eq!(got.len(), 2);
    assert_eq!(binary(&got[0]), Some(&[1u8, 2, 3][..]));
    assert_eq!(text(&got[1]), Some("hi"));
}

#[test]
fn second_drain_is_empty() {
    let mut s = opened();
    s.on_message(SocketMessage::Text("one".to_string()));
    assert_eq!(s.recv_all().unwrap().len(), 1);
    assert!(s.recv_all().unwrap().is_empty());
}

#[test]
fn drain_splits_arrivals_whole() {
    let mut s = opened();
    s.on_message(SocketMessage::Text("a".to_string()));
    let first = s.recv_all().unwrap();
    s.on_message(SocketMessage::Text("b".to_string()));
    let second = s.recv_all().unwrap();
    assert_eq!(first.len(), 1);
    assert_eq!(text(&first[0]), Some("a"));
    assert_eq!(second.len(), 1);
    assert_eq!(text(&second[0]), Some("b"));
}

#[test]
fn close_makes_drain_terminal() {
    let mut s = opened();
    s.on_close();
    assert!(matches!(s.recv_all(), Err(RecvError::Terminal)));
}

#[test]
fn terminal_is_sticky_with_data_buffered() {
    let mut s = opened();
    s.on_error();
    s.on_message(SocketMessage::Text("late".to_string()));
    assert!(s.is_terminal());
    assert!(matches!(s.recv_all(), Err(RecvError::Terminal)));
    assert!(matches!(s.recv_all(), Err(RecvError::Terminal)));
    assert_eq!(s.ready_state(), ReadyState::Closed);
}

#[test]
fn close_twice_is_harmless() {
    let mut s = opened();
    s.on_close();
    s.on_close();
    assert!(s.is_terminal());
    assert!(matches!(s.recv_all(), Err(RecvError::Terminal)));
}

#[test]
fn ready_state_follows_the_record() {
    let mut s = fresh();
    assert_eq!(s.ready_state(), ReadyState::Connecting);
    s.on_open();
    assert_eq!(s.ready_state(), ReadyState::Open);
    s.on_close();
    assert_eq!(s.ready_state(), ReadyState::Closed);
}

#[test]
fn ready_codes_are_read() {
    assert_eq!(ReadyState::from_code(0), Some(ReadyState::Connecting));
    assert_eq!(ReadyState::from_code(1), Some(ReadyState::Open));
    assert_eq!(ReadyState::from_code(2), Some(ReadyState::Closing));
    assert_eq!(ReadyState::from_code(3), Some(ReadyState::Closed));
    assert_eq!(ReadyState::from_code(4), None);
}

#[test]
fn ping_is_answered_and_not_buffered() {
    let mut s = opened();
    match s.on_frame(Frame::Ping(vec![9, 9])) {
        FrameAction::Reply(d) => assert_eq!(d, vec![9, 9]),
        other => panic!("unexpected {:?}", other),
    }
    assert!(matches!(s.on_frame(Frame::Text("t".to_string())), FrameAction::Continue));
    match s.on_frame(Frame::WouldBlock) {
        FrameAction::Done(Ok(v)) => {
            assert_eq!(v.len(), 1);
            assert_eq!(text(&v[0]), Some("t"));
        }
        other => panic!("unexpected {:?}", other),
    }
}

#[test]
fn frames_are_collected_until_would_block() {
    let mut s = opened();
    assert!(matches!(s.on_frame(Frame::Binary(vec![1, 2, 3])), FrameAction::Continue));
    assert!(matches!(s.on_frame(Frame::Text("hi".to_string())), FrameAction::Continue));
    match s.on_frame(Frame::WouldBlock) {
        FrameAction::Done(Ok(v)) => {
            assert_eq!(v.len(), 2);
            assert_eq!(binary(&v[0]), Some(&[1u8, 2, 3][..]));
            assert_eq!(text(&v[1]), Some("hi"));
        }
        other => panic!("unexpected {:?}", other),
    }
    match s.on_frame(Frame::WouldBlock) {
        FrameAction::Done(Ok(v)) => assert!(v.is_empty()),
        other => panic!("unexpected {:?}", other),
    }
}

#[test]
fn close_frame_ends_the_connection() {
    let mut s = opened();
    assert!(matches!(s.on_frame(Frame::Close), FrameAction::Done(Err(RecvError::Terminal))));
    assert!(matches!(s.on_frame(Frame::Text("x".to_string())), FrameAction::Done(Err(RecvError::Terminal))));
    assert!(matches!(s.recv_all(), Err(RecvError::Terminal)));
}

#[test]
fn failed_read_ends_the_connection() {
    let mut s = opened();
    assert!(matches!(s.on_frame(Frame::Failed), FrameAction::Done(Err(RecvError::Terminal))));
    assert!(s.is_terminal());
}

#[test]
fn pong_frame_is_unsupported() {
    let mut s = opened();
    assert!(matches!(s.on_frame(Frame::Text("kept".to_string())), FrameAction::Continue));
    assert!(matches!(s.on_frame(Frame::Pong(vec![])), FrameAction::Done(Err(RecvError::Unsupported))));
    assert!(!s.is_terminal());
    let v = s.recv_all().unwrap();
    assert_eq!(v.len(), 1);
    assert_eq!(text(&v[0]), Some("kept"));
}
