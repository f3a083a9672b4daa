use easy_socket::identity::generate_stable_id;
use easy_socket::message::decode_message;
use easy_socket::server_loop::{loop_step, LoopAction, LoopEvent, LoopState};
use easy_socket::socket::{EasySocketServer, Socket};
use std::cell::RefCell;
use std::rc::Rc;

type TestSocket = Socket<u8, u16, Box<dyn Fn(&str)>>;

#[test]
fn socket_id_comes_from_address() {
    let tcp: TestSocket = Socket::new_tcp("127.0.0.1:4000", 1);
    let udp: TestSocket = Socket::new_udp("127.0.0.1:4000", 2);
    assert_eq!(tcp.id(), generate_stable_id("127.0.0.1:4000"));
    assert_eq!(tcp.id(), udp.id());
}

#[test]
fn emit_then_dispatch_round_trip() {
    let sender: TestSocket = Socket::new_tcp("a", 7);
    let mut receiver: TestSocket = Socket::new_tcp("b", 8);
    let seen: Rc<RefCell<Vec<String>>> = Rc::new(RefCell::new(Vec::new()));
    let log = seen.clone();
    receiver.on("ping", Box::new(move |m: &str| log.borrow_mut().push(m.to_string())));
    let (stream, bytes) = sender.emit_target("ping").unwrap();
    assert_eq!(*stream, 7);
    assert_eq!(bytes, b"ping");
    let (message, handler) = receiver.dispatch(bytes);
    assert_eq!(message, "ping");
    handler.unwrap()(&message);
    assert_eq!(*seen.borrow(), vec!["ping".to_string()]);
}

#[test]
fn dispatch_without_handler() {
    let mut s: TestSocket = Socket::new_tcp("a", 0);
    s.on("pong", Box::new(|_m: &str| {}));
    let (message, handler) = s.dispatch(b"ping");
    assert_eq!(message, "ping");
    assert!(handler.is_none());
}

#[test]
fn datagram_socket_emits_nothing() {
    let s: TestSocket = Socket::new_udp("0.0.0.0:9000", 3);
    assert!(s.emit_target("hi").is_none());
    assert!(s.stream().is_none());
    let t: TestSocket = Socket::new_tcp("0.0.0.0:9000", 4);
    assert_eq!(t.stream(), Some(&4));
}

#[test]
fn invalid_bytes_are_replaced() {
    assert_eq!(decode_message(b"hi\xffthere"), "hi\u{FFFD}there");
    assert_eq!(decode_message("ok ✓".as_bytes()), "ok ✓");
    assert_eq!(decode_message(b""), "");
}

#[test]
fn message_handler_and_content_handler_both_found() {
    let mut s: Socket<(), (), u32> = Socket::new_tcp("a", ());
    s.on("message", 1);
    s.on("hello", 2);
    let (message, generic, specific) = s.dispatch_message(b"hello");
    assert_eq!(message, "hello");
    assert_eq!(generic, Some(&1));
    assert_eq!(specific, Some(&2));
    let (_, generic, specific) = s.dispatch_message(b"other");
    assert_eq!(generic, Some(&1));
    assert_eq!(specific, None);
}

#[test]
fn server_connection_handler() {
    let mut server: EasySocketServer<u32> = EasySocketServer::new();
    assert_eq!(server.connection_handler(), None);
    server.on("connection", 1);
    server.on("connection", 9);
    server.on("close", 3);
    assert_eq!(server.connection_handler(), Some(&9));
}

#[test]
fn second_connection_waits_for_first_handler() {
    let (s, a) = loop_step(LoopState::Waiting, LoopEvent::Accepted, true, false);
    assert_eq!((s, a), (LoopState::Handling, LoopAction::RunHandler));
    // a second peer reported while the first handler runs is not accepted
    assert_eq!(
        loop_step(s, LoopEvent::Accepted, true, false),
        (LoopState::Handling, LoopAction::Stop)
    );
    let (s, a) = loop_step(s, LoopEvent::HandlerReturned, true, false);
    assert_eq!((s, a), (LoopState::Waiting, LoopAction::AcceptNext));
    let (s, a) = loop_step(s, LoopEvent::Accepted, true, false);
    assert_eq!((s, a), (LoopState::Handling, LoopAction::RunHandler));
}

#[test]
fn accept_failure_policies() {
    assert_eq!(
        loop_step(LoopState::Waiting, LoopEvent::Failed, true, false),
        (LoopState::Stopped, LoopAction::Stop)
    );
    assert_eq!(
        loop_step(LoopState::Waiting, LoopEvent::Failed, true, true),
        (LoopState::Waiting, LoopAction::AcceptNext)
    );
    assert_eq!(
        loop_step(LoopState::Waiting, LoopEvent::Accepted, false, false),
        (LoopState::Waiting, LoopAction::AcceptNext)
    );
    assert_eq!(
        loop_step(LoopState::Stopped, LoopEvent::Accepted, true, true),
        (LoopState::Stopped, LoopAction::Stop)
    );
}
