use vstd::prelude::*;

use crate::message::WsMessage;
use crate::poll::Poll;
use crate::state::WsState;
use crate::ws_io::{close_after, close_event, close_plan, fresh, next_after, next_result, received, WsIoView};

verus! {

/// What successive polls of the stream by one task yield, the socket
/// reporting `states[k]` at the `k`-th poll, with no message arriving between
/// them.
pub open spec fn polls<S, W>(v: WsIoView<S, W>, states: Seq<WsState>, waker: W) -> Seq<Poll<Option<WsMessage>>>
    decreases states.len(),
{
    if states.len() == 0 {
        seq![]
    } else {
        seq![next_result(v, states[0])] + polls(next_after(v, waker), states.drop_first(), waker)
    }
}

/// The adapter after the socket delivered each of `msgs`, in order.
pub open spec fn deliver_all<S, W>(v: WsIoView<S, W>, msgs: Seq<WsMessage>) -> WsIoView<S, W>
    decreases msgs.len(),
{
    if msgs.len() == 0 {
        v
    } else {
        received(deliver_all(v, msgs.drop_last()), Some(msgs.last()))
    }
}

/// A socket moves forward through its lifecycle and never back.
pub open spec fn never_reopens(states: Seq<WsState>) -> bool {
    forall|k: int, l: int| 0 <= k <= l < states.len() ==> states[k].rank() <= states[l].rank()
}

/// The `i`-th of successive polls yields the `i`-th queued message while
/// there is one, and afterwards is pending or ends the stream by the state.
pub proof fn lemma_polls_at<S, W>(v: WsIoView<S, W>, states: Seq<WsState>, waker: W, i: int)
    requires
        0 <= i < states.len(),
    ensures
        polls(v, states, waker).len() == states.len(),
        polls(v, states, waker)[i] == (if i < v.queue.len() {
            Poll::Ready(Some(v.queue[i]))
        } else if states[i].is_terminal() {
            Poll::Ready(None)
        } else {
            Poll::Pending
        }),
    decreases states.len(),
{
    let rest = states.drop_first();
    if states.len() > 1 {
        lemma_polls_at(next_after(v, waker), rest, waker, if i > 0 { i - 1 } else { 0 });
    } else {
        assert(polls(next_after(v, waker), rest, waker) =~= seq![]);
    }
    if i > 0 {
        assert(rest[i - 1] == states[i]);
        if i < v.queue.len() {
            assert(next_after(v, waker).queue[i - 1] == v.queue[i]);
        }
    }
}

/// Delivering messages appends them to the queue in delivery order.
pub proof fn lemma_deliver_all_queue<S, W>(v: WsIoView<S, W>, msgs: Seq<WsMessage>)
    ensures
        deliver_all(v, msgs).queue == v.queue + msgs,
    decreases msgs.len(),
{
    if msgs.len() > 0 {
        lemma_deliver_all_queue(v, msgs.drop_last());
        assert(v.queue + msgs =~= (v.queue + msgs.drop_last()).push(msgs.last()));
    } else {
        assert(v.queue + msgs =~= v.queue);
    }
}

/// Messages that arrive before any poll come out of the stream one per poll,
/// in the order in which they arrived, and the poll after the last of them is
/// pending while the socket is connecting or open and ends the stream once it
/// is closing or closed.
pub proof fn lemma_delivered_in_order<S, W>(socket: S, msgs: Seq<WsMessage>, states: Seq<WsState>, waker: W)
    requires
        states.len() == msgs.len() + 1,
    ensures
        ({
            let rs = polls(deliver_all(fresh::<S, W>(socket), msgs), states, waker);
            &&& rs.len() == states.len()
            &&& forall|i: int| 0 <= i < msgs.len() ==> rs[i] == Poll::Ready(Some(msgs[i]))
            &&& rs[msgs.len() as int] == (if states[msgs.len() as int].is_terminal() {
                Poll::Ready(None::<WsMessage>)
            } else {
                Poll::Pending
            })
        }),
{
    let v = deliver_all(fresh::<S, W>(socket), msgs);
    lemma_deliver_all_queue(fresh::<S, W>(socket), msgs);
    assert(v.queue =~= msgs);
    lemma_polls_at(v, states, waker, msgs.len() as int);
    assert forall|i: int| 0 <= i < msgs.len() implies polls(v, states, waker)[i] == Poll::<
        Option<WsMessage>,
    >::Ready(Some(msgs[i])) by {
        lemma_polls_at(v, states, waker, i);
    }
}

/// Once the stream has ended, every later poll ends it too.
pub proof fn lemma_end_is_sticky<S, W>(v: WsIoView<S, W>, states: Seq<WsState>, waker: W, i: int, j: int)
    requires
        never_reopens(states),
        0 <= i <= j < states.len(),
        polls(v, states, waker)[i] == Poll::<Option<WsMessage>>::Ready(None),
    ensures
        polls(v, states, waker)[j] == Poll::<Option<WsMessage>>::Ready(None),
{
    lemma_polls_at(v, states, waker, i);
    lemma_polls_at(v, states, waker, j);
    assert(states[i].rank() <= states[j].rank());
}

/// Closing the sink twice while the socket is closing asks the socket to
/// close neither time and starts no second close-wait task; when the close
/// event fires the task of the later call is resumed, and from then on a close
/// completes at once. The stream side is left as it was.
pub proof fn lemma_close_is_idempotent<S, W>(v: WsIoView<S, W>, first: W, second: W)
    ensures
        ({
            let p1 = close_plan(v, WsState::Closing);
            let v1 = close_after(v, WsState::Closing, first);
            let p2 = close_plan(v1, WsState::Closing);
            let v2 = close_after(v1, WsState::Closing, second);
            let done = close_plan(close_event(v2), WsState::Closed);
            &&& !p1.request_close && !p2.request_close
            &&& p1.spawn_waiter == !v.close_waiting
            &&& !p2.spawn_waiter
            &&& p1.poll is Pending && p2.poll is Pending
            &&& v2.close_waker == Some(second)
            &&& !done.request_close && !done.spawn_waiter
            &&& done.poll == Poll::<Result<(), crate::error::WsErr>>::Ready(Ok(()))
            &&& v2.queue == v.queue && v2.parked == v.parked && v2.socket == v.socket
        }),
{
}

} // verus!
