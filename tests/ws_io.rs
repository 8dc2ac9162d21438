use ws_stream_wasm::{ClosePlan, Poll, WsErr, WsErrKind, WsIo, WsMessage, WsState};

/// A stand-in for the socket handle, counting the close requests it received.
#[derive(Debug, PartialEq)]
struct FakeSocket {
    id: u32,
    closes: u32,
}

fn text(s: &str) -> WsMessage {
    WsMessage::Text(s.to_string())
}

fn closed_err() -> WsErr {
    WsErr::new(WsErrKind::ConnectionClosed)
}

#[test]
fn ready_state_maps_codes() {
    let io: WsIo<u8, u32> = WsIo::new(0);
    assert_eq!(io.ready_state(0), WsState::Connecting);
    assert_eq!(io.ready_state(1), WsState::Open);
    assert_eq!(io.ready_state(2), WsState::Closing);
    assert_eq!(io.ready_state(3), WsState::Closed);
}

#[test]
fn new_keeps_socket_and_starts_empty() {
    let mut io: WsIo<FakeSocket, u32> = WsIo::new(FakeSocket { id: 9, closes: 0 });
    assert_eq!(io.socket().id, 9);
    assert_eq!(io.poll_next(WsState::Open, 1), Poll::Pending);
}

#[test]
fn messages_before_any_poll_come_out_in_order() {
    let mut io: WsIo<u8, u32> = WsIo::new(0);
    let msgs = vec![text("a"), WsMessage::Binary(vec![1, 2, 3]), text("c")];
    for m in msgs.iter() {
        assert_eq!(io.on_message(Some(m.clone())), None);
    }
    for m in msgs.iter() {
        assert_eq!(io.poll_next(WsState::Open, 1), Poll::Ready(Some(m.clone())));
    }
    assert_eq!(io.poll_next(WsState::Open, 1), Poll::Pending);
    assert_eq!(io.poll_next(WsState::Closed, 1), Poll::Ready(None));
}

#[test]
fn queued_messages_outlive_the_close() {
    let mut io: WsIo<u8, u32> = WsIo::new(0);
    io.on_message(Some(text("last words")));
    assert_eq!(io.poll_next(WsState::Closed, 1), Poll::Ready(Some(text("last words"))));
    assert_eq!(io.poll_next(WsState::Closed, 1), Poll::Ready(None));
}

#[test]
fn end_of_stream_is_sticky() {
    let mut io: WsIo<u8, u32> = WsIo::new(0);
    assert_eq!(io.poll_next(WsState::Closing, 1), Poll::Ready(None));
    assert_eq!(io.poll_next(WsState::Closing, 2), Poll::Ready(None));
    assert_eq!(io.poll_next(WsState::Closed, 3), Poll::Ready(None));
    assert_eq!(io.poll_next(WsState::Closed, 4), Poll::Ready(None));
}

#[test]
fn message_wakes_the_parked_task_once() {
    let mut io: WsIo<u8, u32> = WsIo::new(0);
    assert_eq!(io.poll_next(WsState::Open, 5), Poll::Pending);
    assert_eq!(io.poll_next(WsState::Open, 6), Poll::Pending);
    assert_eq!(io.on_message(Some(text("x"))), Some(6));
    assert_eq!(io.on_message(Some(text("y"))), None);
    assert_eq!(io.poll_next(WsState::Open, 7), Poll::Ready(Some(text("x"))));
    assert_eq!(io.poll_next(WsState::Open, 7), Poll::Ready(Some(text("y"))));
}

#[test]
fn undecodable_event_is_skipped() {
    let mut io: WsIo<u8, u32> = WsIo::new(0);
    assert_eq!(io.poll_next(WsState::Open, 5), Poll::Pending);
    assert_eq!(io.on_message(None), None);
    assert_eq!(io.poll_next(WsState::Open, 6), Poll::Pending);
    assert_eq!(io.on_message(Some(text("z"))), Some(6));
}

#[test]
fn poll_ready_follows_state() {
    let io: WsIo<u8, u32> = WsIo::new(0);
    assert_eq!(io.poll_ready(WsState::Connecting), Poll::Pending);
    assert_eq!(io.poll_ready(WsState::Open), Poll::Ready(Ok(())));
    assert_eq!(io.poll_ready(WsState::Closing), Poll::Ready(Err(closed_err())));
    assert_eq!(io.poll_ready(WsState::Closed), Poll::Ready(Err(closed_err())));
}

#[test]
fn start_send_by_state() {
    let mut io: WsIo<u8, u32> = WsIo::new(0);
    assert_eq!(io.start_send(WsState::Open, text("hi")), Ok(text("hi")));
    assert_eq!(io.start_send(WsState::Closing, text("hi")), Err(closed_err()));
    assert_eq!(
        io.start_send(WsState::Connecting, text("hi")),
        Err(WsErr::new(WsErrKind::ConnectionNotReady))
    );
    assert_eq!(io.start_send(WsState::Closed, WsMessage::Binary(vec![0])), Err(closed_err()));
    assert_eq!(
        io.start_send(WsState::Open, WsMessage::Binary(vec![4, 5])),
        Ok(WsMessage::Binary(vec![4, 5]))
    );
}

#[test]
fn raw_transport_error_kind() {
    let e = WsErr::new(WsErrKind::RawTransport);
    assert_eq!(e.kind(), WsErrKind::RawTransport);
    assert_ne!(e, closed_err());
}

#[test]
fn poll_flush_is_always_ready() {
    let io: WsIo<u8, u32> = WsIo::new(0);
    assert_eq!(io.poll_flush(), Poll::Ready(Ok(())));
}

#[test]
fn poll_close_from_open_requests_close() {
    let mut io: WsIo<u8, u32> = WsIo::new(0);
    let p = io.poll_close(WsState::Open, 1);
    assert_eq!(p, ClosePlan { request_close: true, spawn_waiter: true, poll: Poll::Pending });
    let p = io.poll_close(WsState::Connecting, 1);
    assert_eq!(p, ClosePlan { request_close: true, spawn_waiter: false, poll: Poll::Pending });
}

#[test]
fn poll_close_twice_while_closing() {
    let mut io: WsIo<u8, u32> = WsIo::new(0);
    let p1 = io.poll_close(WsState::Closing, 1);
    assert_eq!(p1, ClosePlan { request_close: false, spawn_waiter: true, poll: Poll::Pending });
    let p2 = io.poll_close(WsState::Closing, 2);
    assert_eq!(p2, ClosePlan { request_close: false, spawn_waiter: false, poll: Poll::Pending });
    assert_eq!(io.on_close(), Some(2));
    assert_eq!(io.on_close(), None);
    let done = io.poll_close(WsState::Closed, 2);
    assert_eq!(done, ClosePlan { request_close: false, spawn_waiter: false, poll: Poll::Ready(Ok(())) });
    let again = io.poll_close(WsState::Closed, 1);
    assert_eq!(again.poll, Poll::Ready(Ok(())));
}

#[test]
fn new_waiter_after_close_event() {
    let mut io: WsIo<u8, u32> = WsIo::new(0);
    assert!(io.poll_close(WsState::Closing, 1).spawn_waiter);
    assert_eq!(io.on_close(), Some(1));
    assert!(io.poll_close(WsState::Closing, 2).spawn_waiter);
}

#[test]
fn scenario_state_sequence() {
    let mut io: WsIo<u8, u32> = WsIo::new(0);
    assert_eq!(io.poll_next(WsState::Connecting, 1), Poll::Pending);
    assert_eq!(io.on_message(Some(text("one"))), Some(1));
    assert_eq!(io.on_message(Some(text("two"))), None);
    assert_eq!(io.poll_next(WsState::Open, 1), Poll::Ready(Some(text("one"))));
    assert_eq!(io.poll_next(WsState::Open, 1), Poll::Ready(Some(text("two"))));
    assert_eq!(io.poll_next(WsState::Closing, 1), Poll::Ready(None));
    assert_eq!(io.poll_next(WsState::Closed, 1), Poll::Ready(None));
}

#[test]
fn scenario_drop_while_close_wait_pending() {
    let mut io: WsIo<FakeSocket, u32> = WsIo::new(FakeSocket { id: 3, closes: 0 });
    let plan = io.poll_close(WsState::Closing, 1);
    assert!(plan.poll.is_pending());
    assert!(plan.spawn_waiter);
    assert!(!plan.request_close);
    // The close plan asked for no close request, so the one on drop is the only one.
    let closes = io.socket().closes + if plan.request_close { 1 } else { 0 };
    drop(io);
    assert_eq!(closes + 1, 1);
}
