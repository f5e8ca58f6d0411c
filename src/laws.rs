use vstd::prelude::*;

use crate::error::RecvError;
use crate::message::SocketMessage;
use crate::socket::{ReadyState, SocketView};

verus! {

/// The state after sending each of `msgs`, in order, while the transport
/// reports `ready`.
pub open spec fn send_all(s: SocketView, msgs: Seq<SocketMessage>, ready: ReadyState) -> SocketView
    decreases msgs.len(),
{
    if msgs.len() == 0 {
        s
    } else {
        send_all(s, msgs.drop_last(), ready).after_send(msgs.last(), ready)
    }
}

/// The state after each of `msgs` arrived, in order, from the transport.
pub open spec fn arrive_all(s: SocketView, msgs: Seq<SocketMessage>) -> SocketView
    decreases msgs.len(),
{
    if msgs.len() == 0 {
        s
    } else {
        arrive_all(s, msgs.drop_last()).after_arrival(msgs.last())
    }
}

proof fn lemma_send_all_connecting(s: SocketView, msgs: Seq<SocketMessage>)
    ensures
        send_all(s, msgs, ReadyState::Connecting) == (SocketView { queued: s.queued + msgs, ..s }),
    decreases msgs.len(),
{
    if msgs.len() == 0 {
        assert(s.queued + msgs =~= s.queued);
    } else {
        lemma_send_all_connecting(s, msgs.drop_last());
        assert(s.queued + msgs =~= (s.queued + msgs.drop_last()).push(msgs.last()));
    }
}

proof fn lemma_arrive_all(s: SocketView, msgs: Seq<SocketMessage>)
    ensures
        arrive_all(s, msgs) == (SocketView { received: s.received + msgs, ..s }),
    decreases msgs.len(),
{
    if msgs.len() == 0 {
        assert(s.received + msgs =~= s.received);
    } else {
        lemma_arrive_all(s, msgs.drop_last());
        assert(s.received + msgs =~= (s.received + msgs.drop_last()).push(msgs.last()));
    }
}

/// Messages sent before the open transition reach the transport at that
/// transition after those already pending, in exactly the order of the sends.
pub proof fn lemma_pending_fifo(s: SocketView, msgs: Seq<SocketMessage>)
    requires
        !s.opened,
    ensures
        send_all(s, msgs, ReadyState::Connecting).flushed() == s.queued + msgs,
        send_all(SocketView::fresh(), msgs, ReadyState::Connecting).flushed() == msgs,
{
    lemma_send_all_connecting(s, msgs);
    lemma_send_all_connecting(SocketView::fresh(), msgs);
    assert(Seq::<SocketMessage>::empty() + msgs =~= msgs);
}

/// The open transition flushes once: after it, a second one hands nothing
/// to the transport.
pub proof fn lemma_flush_once(s: SocketView)
    ensures
        s.after_open().flushed() == Seq::<SocketMessage>::empty(),
{
}

/// A drain that succeeded leaves nothing behind: a second drain with no new
/// arrivals returns the empty sequence.
pub proof fn lemma_drain_then_empty(s: SocketView)
    requires
        s.drained() is Ok,
    ensures
        s.after_drain().drained() == Ok::<Seq<SocketMessage>, RecvError>(Seq::empty()),
{
}

/// Every arrival belongs wholly to one drain: what arrived before a drain is
/// all in its result, in arrival order, and what arrives after it is all in
/// the next one and nowhere else.
pub proof fn lemma_drain_atomic(s: SocketView, before: Seq<SocketMessage>, after: Seq<SocketMessage>)
    requires
        !s.terminal(),
    ensures
        arrive_all(s, before).drained() == Ok::<Seq<SocketMessage>, RecvError>(
            s.received + before,
        ),
        arrive_all(arrive_all(s, before).after_drain(), after).drained() == Ok::<
            Seq<SocketMessage>,
            RecvError,
        >(after),
{
    lemma_arrive_all(s, before);
    let d = arrive_all(s, before).after_drain();
    lemma_arrive_all(d, after);
    assert(d.received + after =~= after);
}

/// Once closed or failed, a connection stays so whatever happens next, and
/// every drain fails with `Terminal`, buffered data or not.
pub proof fn lemma_terminal_sticky(s: SocketView, m: SocketMessage, ready: ReadyState)
    requires
        s.terminal(),
    ensures
        s.drained() == Err::<Seq<SocketMessage>, RecvError>(RecvError::Terminal),
        s.after_send(m, ready).terminal(),
        s.after_open().terminal(),
        s.after_arrival(m).terminal(),
        s.after_error().terminal(),
        s.after_close().terminal(),
        s.after_drain().terminal(),
        s.after_arrival(m).drained() == Err::<Seq<SocketMessage>, RecvError>(RecvError::Terminal),
{
}

/// Recording a close on a connection that is already closed changes nothing.
pub proof fn lemma_close_idempotent(s: SocketView)
    ensures
        s.after_close().after_close() == s.after_close(),
        s.disconnected ==> s.after_close() == s,
{
}

} // verus!
