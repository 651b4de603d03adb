//! The pool's cross-operation guarantees, stated and proved over the step
//! relations of the protocol modules.

use vstd::prelude::*;

use crate::acquire::{
    acquire_poll_post, cancel_post, fresh_id_post, open_failed_post, AcquirePoll, GetConnection,
};
use crate::disconnect::{disconnect_poll_post, DisconnectPoll, DisconnectStatus};
use crate::error::Error;
use crate::pool::{finish_post, inv, returned_post, same_lifecycle, PoolCore};
use crate::queue::{
    lemma_without_id_idempotent, lemma_without_id_len, lemma_without_id_push_same, without_id,
    Entry, QUEUE_END_ID,
};

verus! {

/// Some single operation of the protocol relates `pre` to `post`: starting
/// or cancelling an acquisition, polling an acquire or a disconnect,
/// reporting a failed open, reclaiming a returned connection, or running
/// the shutdown-drain check.
pub open spec fn pool_step<C, W>(pre: PoolCore<C, W>, post: PoolCore<C, W>) -> bool {
    ||| exists|g: GetConnection| fresh_id_post(pre, post, g)
    ||| exists|id: u64, w: W, r: AcquirePoll<C>| acquire_poll_post(pre, post, id, w, r)
    ||| exists|id: u64| cancel_post(pre, post, id)
    ||| open_failed_post(pre, post)
    ||| exists|sent: bool, w: W, r: DisconnectPoll| disconnect_poll_post(pre, post, sent, w, r)
    ||| exists|c: C, valid: bool, d: Option<C>, woken: Seq<Entry<W>>|
        returned_post(pre, post, c, valid, d, woken)
    ||| exists|done: bool, dr: Seq<C>, woken: Seq<Entry<W>>| finish_post(pre, post, done, dr, woken)
}

/// The shutdown request is sticky: no operation of the protocol ever
/// clears it.
pub proof fn lemma_close_request_sticky<C, W>(pre: PoolCore<C, W>, post: PoolCore<C, W>)
    requires
        pre.close_requested,
        pool_step(pre, post),
    ensures
        post.close_requested,
{
}

/// The closed state is terminal: once the pool has closed, every operation
/// leaves it closed, with nothing outstanding and nothing idle.
pub proof fn lemma_closed_is_terminal<C, W>(pre: PoolCore<C, W>, post: PoolCore<C, W>)
    requires
        inv(pre),
        pre.closed,
        pool_step(pre, post),
    ensures
        post.closed,
        post.exchange.outstanding == 0,
        post.exchange.idle@.len() == 0,
{
}

/// Idempotent close: polling a disconnect on a pool that has already closed
/// resolves at once, any number of times, and every such poll leaves the
/// lifecycle state — both flags, the live count, the pooled connections —
/// exactly as it was, so repeated `disconnect()` calls reach the same
/// terminal state.
pub proof fn lemma_disconnect_idempotent<C, W>(
    s0: PoolCore<C, W>,
    s1: PoolCore<C, W>,
    s2: PoolCore<C, W>,
    sent1: bool,
    sent2: bool,
    w1: W,
    w2: W,
    r1: DisconnectPoll,
    r2: DisconnectPoll,
)
    requires
        inv(s0),
        s0.closed,
        disconnect_poll_post(s0, s1, sent1, w1, r1),
        disconnect_poll_post(s1, s2, sent2, w2, r2),
    ensures
        r1.status == DisconnectStatus::Ready,
        r2.status == DisconnectStatus::Ready,
        same_lifecycle(s0, s1),
        same_lifecycle(s0, s2),
{
}

/// Drain before close: whenever the terminal flag is observable, no
/// connection is checked out or in transit any more — and none is idle
/// either — and shutdown had been requested first. Every step of the
/// protocol preserves the invariant this rests on.
pub proof fn lemma_drain_before_close<C, W>(p: PoolCore<C, W>)
    requires
        inv(p),
        p.closed,
    ensures
        p.close_requested,
        p.exchange.outstanding == 0,
        p.exchange.idle@.len() == 0,
{
}

/// No lost wakeup: if a connection is reclaimed into an open pool while
/// waiters are pending, every one of them is handed back to be woken, and
/// the first of them to poll again is granted that very connection.
pub proof fn lemma_no_lost_wakeup<C, W>(
    s0: PoolCore<C, W>,
    s1: PoolCore<C, W>,
    s2: PoolCore<C, W>,
    c: C,
    discard: Option<C>,
    woken: Seq<Entry<W>>,
    id: u64,
    w: W,
    r: AcquirePoll<C>,
)
    requires
        inv(s0),
        !s0.close_requested,
        s0.exchange.waiting@.len() > 0,
        returned_post(s0, s1, c, true, discard, woken),
        acquire_poll_post(s1, s2, id, w, r),
    ensures
        woken == s0.exchange.waiting@,
        woken.len() > 0,
        r == AcquirePoll::<C>::Granted(c),
{
    assert(s1.exchange.idle@.last() == c);
}

/// Dead-recycler shutdown: a disconnect poll on a pool that is not yet
/// closed, by a future that has not yet signalled the reclamation task,
/// asks for the shutdown signal to be sent — and if that send fails because
/// the task has already exited, [`crate::disconnect::DisconnectPool::note_sent`]
/// resolves the future on that same poll.
pub proof fn lemma_dead_recycler_shutdown<C, W>(
    s0: PoolCore<C, W>,
    s1: PoolCore<C, W>,
    w: W,
    r: DisconnectPoll,
)
    requires
        inv(s0),
        !s0.closed,
        disconnect_poll_post(s0, s1, false, w, r),
    ensures
        r.status == DisconnectStatus::SendShutdown,
{
}

/// A pending disconnect is woken when the drain completes: its status
/// listener, registered on every poll, is among the waiters the completing
/// drain check hands back — so the wakeup that lets the disconnect observe
/// the closed pool and resolve is never lost.
pub proof fn lemma_disconnect_wakeup_not_lost<C, W>(
    s0: PoolCore<C, W>,
    s1: PoolCore<C, W>,
    s2: PoolCore<C, W>,
    sent: bool,
    w: W,
    r: DisconnectPoll,
    done: bool,
    drained: Seq<C>,
    woken: Seq<Entry<W>>,
)
    requires
        inv(s0),
        disconnect_poll_post(s0, s1, sent, w, r),
        finish_post(s1, s2, done, drained, woken),
        done,
    ensures
        woken.len() > 0,
        woken.last() == (Entry { id: QUEUE_END_ID, waker: w }),
        s2.closed,
{
}

/// Post-close rejection: once any disconnect poll has run — resolved or not
/// — every later acquire poll fails immediately with [`Error::PoolClosed`],
/// changes nothing, and in particular never leaves the caller pending.
pub proof fn lemma_post_close_rejection<C, W>(
    s0: PoolCore<C, W>,
    s1: PoolCore<C, W>,
    s2: PoolCore<C, W>,
    sent: bool,
    w1: W,
    r1: DisconnectPoll,
    id: u64,
    w2: W,
    r2: AcquirePoll<C>,
)
    requires
        inv(s0),
        disconnect_poll_post(s0, s1, sent, w1, r1),
        acquire_poll_post(s1, s2, id, w2, r2),
    ensures
        r2 == AcquirePoll::<C>::Rejected(Error::PoolClosed),
        same_lifecycle(s1, s2),
{
}

/// Cancellation cleanup: an acquire that registered itself while pending
/// and is then cancelled leaves the waiting queue exactly as if it had
/// never registered — no dead entry remains and the queue has not grown.
pub proof fn lemma_cancel_cleanup<C, W>(
    s0: PoolCore<C, W>,
    s1: PoolCore<C, W>,
    s2: PoolCore<C, W>,
    id: u64,
    w: W,
    r: AcquirePoll<C>,
)
    requires
        inv(s0),
        acquire_poll_post(s0, s1, id, w, r),
        r is Pending,
        s2.exchange.waiting@ == without_id(s1.exchange.waiting@, id),
    ensures
        s2.exchange.waiting@ == without_id(s0.exchange.waiting@, id),
        s2.exchange.waiting@.len() <= s0.exchange.waiting@.len(),
{
    let q0 = s0.exchange.waiting@;
    lemma_without_id_push_same(without_id(q0, id), id, Entry { id, waker: w });
    lemma_without_id_idempotent(q0, id);
    lemma_without_id_len(q0, id);
}

} // verus!
