use vstd::prelude::*;

use crate::error::{WsErr, WsErrKind};
use crate::message::WsMessage;
use crate::poll::Poll;
use crate::state::WsState;

verus! {

/// The abstract content of a [`WsIo`].
pub struct WsIoView<S, W> {
    /// The socket handle, owned by the adapter.
    pub socket: S,
    /// Messages received and not yet handed to the stream's consumer, oldest first.
    pub queue: Seq<WsMessage>,
    /// The continuation of the task that last found the queue empty.
    pub parked: Option<W>,
    /// The continuation of the task that last waits for the close to complete.
    pub close_waker: Option<W>,
    /// Whether a close-wait task is already running for this adapter.
    pub close_waiting: bool,
}

/// What `poll_close` asks its caller to do.
#[derive(Clone, Copy, Debug, PartialEq, Eq)]
pub struct ClosePlan {
    /// Ask the socket to close.
    pub request_close: bool,
    /// Start a task that waits for the socket's close event and then calls
    /// [`WsIo::on_close`].
    pub spawn_waiter: bool,
    /// What `poll_close` returns to the scheduler.
    pub poll: Poll<Result<(), WsErr>>,
}

/// The adapter state in its initial form: no queued message and nobody waiting.
pub open spec fn fresh<S, W>(socket: S) -> WsIoView<S, W> {
    WsIoView { socket, queue: seq![], parked: None, close_waker: None, close_waiting: false }
}

/// What a poll of the stream yields.
pub open spec fn next_result<S, W>(v: WsIoView<S, W>, state: WsState) -> Poll<Option<WsMessage>> {
    if v.queue.len() > 0 {
        Poll::Ready(Some(v.queue[0]))
    } else if state.is_terminal() {
        Poll::Ready(None)
    } else {
        Poll::Pending
    }
}

/// The adapter after a poll of the stream by the task `waker` resumes.
pub open spec fn next_after<S, W>(v: WsIoView<S, W>, waker: W) -> WsIoView<S, W> {
    if v.queue.len() > 0 {
        WsIoView { queue: v.queue.drop_first(), ..v }
    } else {
        WsIoView { parked: Some(waker), ..v }
    }
}

/// The adapter after the socket delivered an event that decoded to `decoded`.
pub open spec fn received<S, W>(v: WsIoView<S, W>, decoded: Option<WsMessage>) -> WsIoView<S, W> {
    match decoded {
        Some(m) => WsIoView { queue: v.queue.push(m), parked: None, ..v },
        None => v,
    }
}

/// The continuation to resume after the socket delivered `decoded`.
pub open spec fn woken_by_message<S, W>(v: WsIoView<S, W>, decoded: Option<WsMessage>) -> Option<W> {
    match decoded {
        Some(_) => v.parked,
        None => None,
    }
}

/// What the sink's readiness check reports.
pub open spec fn ready_result(state: WsState) -> Poll<Result<(), WsErr>> {
    match state {
        WsState::Connecting => Poll::Pending,
        WsState::Open => Poll::Ready(Ok(())),
        _ => Poll::Ready(Err(WsErr { kind: WsErrKind::ConnectionClosed })),
    }
}

/// What submitting `item` leads to: `Ok` with the message to hand to the
/// socket, or the error to report.
pub open spec fn send_result(state: WsState, item: WsMessage) -> Result<WsMessage, WsErr> {
    match state {
        WsState::Connecting => Err(WsErr { kind: WsErrKind::ConnectionNotReady }),
        WsState::Open => Ok(item),
        _ => Err(WsErr { kind: WsErrKind::ConnectionClosed }),
    }
}

/// What a close of the sink asks for.
pub open spec fn close_plan<S, W>(v: WsIoView<S, W>, state: WsState) -> ClosePlan {
    ClosePlan {
        request_close: state is Connecting || state is Open,
        spawn_waiter: !(state is Closed) && !v.close_waiting,
        poll: if state is Closed {
            Poll::Ready(Ok(()))
        } else {
            Poll::Pending
        },
    }
}

/// The adapter after a close of the sink by the task `waker`.
pub open spec fn close_after<S, W>(v: WsIoView<S, W>, state: WsState, waker: W) -> WsIoView<S, W> {
    if state is Closed {
        v
    } else {
        WsIoView { close_waker: Some(waker), close_waiting: true, ..v }
    }
}

/// The adapter after the socket's close event reached the close-wait task.
pub open spec fn close_event<S, W>(v: WsIoView<S, W>) -> WsIoView<S, W> {
    WsIoView { close_waker: None, close_waiting: false, ..v }
}

/// Stream and sink over a websocket of type `S`, resuming tasks through
/// continuations of type `W`.
pub struct WsIo<S, W> {
    ws: S,
    queue: std::collections::VecDeque<WsMessage>,
    waker: Option<W>,
    close_waker: Option<W>,
    close_waiting: bool,
}

impl<S, W> View for WsIo<S, W> {
    type V = WsIoView<S, W>;

    closed spec fn view(&self) -> WsIoView<S, W> {
        WsIoView {
            socket: self.ws,
            queue: self.queue@,
            parked: self.waker,
            close_waker: self.close_waker,
            close_waiting: self.close_waiting,
        }
    }
}

impl<S, W> WsIo<S, W> {
    /// Takes ownership of a socket; the queue and both continuation cells start empty.
    pub fn new(ws: S) -> (r: Self)
        ensures
            r@ == fresh::<S, W>(ws),
    {
        let r = WsIo {
            ws,
            queue: std::collections::VecDeque::new(),
            waker: None,
            close_waker: None,
            close_waiting: false,
        };
        assert(r@.queue =~= Seq::<WsMessage>::empty());
        r
    }

    /// The state that the socket's `readyState` code stands for
    /// (0 connecting, 1 open, 2 closing, 3 closed).
    pub fn ready_state(&self, code: u16) -> (r: WsState)
        requires
            code <= 3,
        ensures
            r == WsState::from_code(code),
    {
        match code {
            0 => WsState::Connecting,
            1 => WsState::Open,
            2 => WsState::Closing,
            _ => WsState::Closed,
        }
    }

    /// The socket handle.
    pub fn socket(&self) -> (r: &S)
        ensures
            *r == self@.socket,
    {
        &self.ws
    }

    /// Stream side: the oldest queued message if there is one. Otherwise the
    /// task `waker` is parked, replacing any earlier one, and the poll ends the
    /// stream when the socket is closing or closed, and is pending while it is
    /// connecting or open.
    pub fn poll_next(&mut self, state: WsState, waker: W) -> (r: Poll<Option<WsMessage>>)
        ensures
            r == next_result(old(self)@, state),
            final(self)@ == next_after(old(self)@, waker),
    {
        if self.queue.len() == 0 {
            self.waker = Some(waker);
            if state.is_closing_or_closed() {
                Poll::Ready(None)
            } else {
                Poll::Pending
            }
        } else {
            let m = self.queue.pop_front();
            Poll::Ready(m)
        }
    }

    /// Message callback: queues what the socket's event decoded to and hands
    /// back the parked continuation, which the caller resumes. An event that
    /// did not decode changes nothing.
    pub fn on_message(&mut self, decoded: Option<WsMessage>) -> (r: Option<W>)
        ensures
            r == woken_by_message(old(self)@, decoded),
            final(self)@ == received(old(self)@, decoded),
    {
        match decoded {
            Some(m) => {
                self.queue.push_back(m);
                self.waker.take()
            },
            None => None,
        }
    }

    /// Sink side: whether a message may be submitted now.
    pub fn poll_ready(&self, state: WsState) -> (r: Poll<Result<(), WsErr>>)
        ensures
            r == ready_result(state),
            r == Poll::<Result<(), WsErr>>::Ready(Ok(())) <==> state is Open,
    {
        match state {
            WsState::Connecting => Poll::Pending,
            WsState::Open => Poll::Ready(Ok(())),
            _ => Poll::Ready(Err(WsErr::new(WsErrKind::ConnectionClosed))),
        }
    }

    /// Sink side: submits `item`. `Ok` holds the message that the caller hands
    /// to the socket's send primitive; a failure of that primitive is reported
    /// as [`WsErrKind::RawTransport`].
    pub fn start_send(&mut self, state: WsState, item: WsMessage) -> (r: Result<WsMessage, WsErr>)
        ensures
            r == send_result(state, item),
            final(self)@ == old(self)@,
    {
        match state {
            WsState::Connecting => Err(WsErr::new(WsErrKind::ConnectionNotReady)),
            WsState::Open => Ok(item),
            _ => Err(WsErr::new(WsErrKind::ConnectionClosed)),
        }
    }

    /// Sink side: the socket keeps no buffer on this side, so there is never
    /// anything to flush.
    pub fn poll_flush(&self) -> (r: Poll<Result<(), WsErr>>)
        ensures
            r == Poll::<Result<(), WsErr>>::Ready(Ok(())),
    {
        Poll::Ready(Ok(()))
    }

    /// Sink side: closes the connection. While connecting or open, the socket
    /// is asked to close. Once closed, the close is complete. Otherwise the
    /// task `waker` is recorded for the close-wait task, which is started only
    /// if none is running yet, and the poll is pending.
    pub fn poll_close(&mut self, state: WsState, waker: W) -> (r: ClosePlan)
        ensures
            r == close_plan(old(self)@, state),
            final(self)@ == close_after(old(self)@, state, waker),
    {
        let request_close = match state {
            WsState::Connecting | WsState::Open => true,
            _ => false,
        };
        match state {
            WsState::Closed => ClosePlan { request_close, spawn_waiter: false, poll: Poll::Ready(Ok(())) },
            _ => {
                let spawn_waiter = !self.close_waiting;
                self.close_waker = Some(waker);
                self.close_waiting = true;
                ClosePlan { request_close, spawn_waiter, poll: Poll::Pending }
            },
        }
    }

    /// Close-wait task: the socket's close event fired. Hands back the
    /// continuation waiting on the close, which the caller resumes.
    pub fn on_close(&mut self) -> (r: Option<W>)
        ensures
            r == old(self)@.close_waker,
            final(self)@ == close_event(old(self)@),
    {
        self.close_waiting = false;
        self.close_waker.take()
    }
}

} // verus!
