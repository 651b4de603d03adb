//! The acquisition protocol: one `GetConnection` per `get_connection()`
//! call. Each poll is a single decision over the locked pool state: fail if
//! shutdown was requested, otherwise take an idle connection, or claim
//! capacity to open a fresh one, or register this poll's waker and wait.

use vstd::prelude::*;

use crate::error::Error;
use crate::pool::{inv, PoolCore};
use crate::queue::{
    lemma_push_keeps_distinct, lemma_without_id_absent, lemma_without_id_keeps_distinct,
    without_id, Entry, QUEUE_END_ID,
};

verus! {

/// The outcome of polling a pending acquisition.
pub enum AcquirePoll<C> {
    /// An idle connection was checked out; the caller owns it now.
    Granted(C),
    /// Capacity allows a fresh connection: the caller must ask the
    /// transport to open one. The new connection is already accounted as
    /// outstanding; if opening fails, report it with
    /// [`GetConnection::note_open_failed`].
    MustOpen,
    /// Nothing available: the waker was registered and the caller waits.
    Pending,
    /// The pool is shutting down; the acquisition fails immediately.
    Rejected(Error),
}

/// How [`GetConnection::poll_step`] relates the pool state before and after
/// one poll. After a shutdown request every poll is rejected at once with
/// [`Error::PoolClosed`] and changes nothing. Otherwise the most recently
/// pooled idle connection is granted; failing that, capacity is claimed for
/// a fresh one; failing that, the poll's waker is registered under the
/// future's id — replacing any previous registration for the same future —
/// and the acquisition stays pending.
pub open spec fn acquire_poll_post<C, W>(
    pre: PoolCore<C, W>,
    post: PoolCore<C, W>,
    id: u64,
    waker: W,
    r: AcquirePoll<C>,
) -> bool {
    &&& post.close_requested == pre.close_requested
    &&& post.closed == pre.closed
    &&& post.next_id == pre.next_id
    &&& post.max_connections == pre.max_connections
    &&& post.exchange.maintenance_spawned == pre.exchange.maintenance_spawned
    &&& if pre.close_requested {
        &&& r == AcquirePoll::<C>::Rejected(Error::PoolClosed)
        &&& post.exchange.idle@ == pre.exchange.idle@
        &&& post.exchange.outstanding == pre.exchange.outstanding
        &&& post.exchange.waiting@ == pre.exchange.waiting@
    } else if pre.exchange.idle@.len() > 0 {
        &&& r == AcquirePoll::<C>::Granted(pre.exchange.idle@.last())
        &&& post.exchange.idle@ == pre.exchange.idle@.drop_last()
        &&& post.exchange.outstanding == pre.exchange.outstanding + 1
        &&& post.exchange.waiting@ == without_id(pre.exchange.waiting@, id)
    } else if pre.exchange.outstanding < pre.max_connections {
        &&& r is MustOpen
        &&& post.exchange.idle@ == pre.exchange.idle@
        &&& post.exchange.outstanding == pre.exchange.outstanding + 1
        &&& post.exchange.waiting@ == without_id(pre.exchange.waiting@, id)
    } else {
        &&& r is Pending
        &&& post.exchange.idle@ == pre.exchange.idle@
        &&& post.exchange.outstanding == pre.exchange.outstanding
        &&& post.exchange.waiting@ == without_id(pre.exchange.waiting@, id).push(
            (Entry { id, waker }),
        )
    }
}

/// How [`GetConnection::new`] relates the pool state before and after an
/// acquisition starts: the future receives the next id — never the reserved
/// status-listener id — and nothing else changes.
pub open spec fn fresh_id_post<C, W>(
    pre: PoolCore<C, W>,
    post: PoolCore<C, W>,
    g: GetConnection,
) -> bool {
    &&& g.id == pre.next_id
    &&& g.id != QUEUE_END_ID
    &&& post.next_id == pre.next_id + 1
    &&& post.close_requested == pre.close_requested
    &&& post.closed == pre.closed
    &&& post.max_connections == pre.max_connections
    &&& post.exchange == pre.exchange
}

/// How [`GetConnection::cancel`] relates the pool state before and after a
/// pending acquisition is dropped: the future's registration is gone and
/// nothing else changes.
pub open spec fn cancel_post<C, W>(pre: PoolCore<C, W>, post: PoolCore<C, W>, id: u64) -> bool {
    &&& post.exchange.waiting@ == without_id(pre.exchange.waiting@, id)
    &&& post.exchange.idle@ == pre.exchange.idle@
    &&& post.exchange.outstanding == pre.exchange.outstanding
    &&& post.exchange.maintenance_spawned == pre.exchange.maintenance_spawned
    &&& post.close_requested == pre.close_requested
    &&& post.closed == pre.closed
    &&& post.next_id == pre.next_id
    &&& post.max_connections == pre.max_connections
}

/// How [`GetConnection::note_open_failed`] relates the pool state before
/// and after a failed open: the capacity claim is released and nothing else
/// changes.
pub open spec fn open_failed_post<C, W>(pre: PoolCore<C, W>, post: PoolCore<C, W>) -> bool {
    &&& post.exchange.outstanding == pre.exchange.outstanding - 1
    &&& post.exchange.idle@ == pre.exchange.idle@
    &&& post.exchange.waiting@ == pre.exchange.waiting@
    &&& post.exchange.maintenance_spawned == pre.exchange.maintenance_spawned
    &&& post.close_requested == pre.close_requested
    &&& post.closed == pre.closed
    &&& post.next_id == pre.next_id
    &&& post.max_connections == pre.max_connections
}

/// A pending acquisition: the protocol state of one `get_connection()`
/// future. It carries the unique id under which this future's waker is
/// registered in the waiting queue.
pub struct GetConnection {
    /// This future's registration id; unique per acquisition and distinct
    /// from the reserved status-listener id.
    pub id: u64,
}

impl GetConnection {
    /// Starts an acquisition, drawing the next id from the pool.
    pub fn new<C, W>(core: &mut PoolCore<C, W>) -> (g: Self)
        requires
            inv(*old(core)),
            old(core).next_id < QUEUE_END_ID,
        ensures
            inv(*final(core)),
            fresh_id_post(*old(core), *final(core), g),
            g.id == old(core).next_id,
            g.id != QUEUE_END_ID,
    {
        let id = core.next_id;
        core.next_id = core.next_id + 1;
        GetConnection { id }
    }

    /// One poll of the acquisition, run under the pool lock with this
    /// poll's waker. See [`acquire_poll_post`] for the full decision; in
    /// particular, after a shutdown request the result is always
    /// `Rejected(Error::PoolClosed)`, immediately.
    pub fn poll_step<C, W>(&self, core: &mut PoolCore<C, W>, waker: W) -> (r: AcquirePoll<C>)
        requires
            inv(*old(core)),
            self.id != QUEUE_END_ID,
        ensures
            inv(*final(core)),
            acquire_poll_post(*old(core), *final(core), self.id, waker, r),
            old(core).close_requested ==> r == AcquirePoll::<C>::Rejected(Error::PoolClosed),
    {
        if core.close_requested {
            return AcquirePoll::Rejected(Error::PoolClosed);
        }
        core.exchange.waiting.remove(self.id);
        proof {
            lemma_without_id_keeps_distinct(old(core).exchange.waiting@, self.id);
            lemma_without_id_absent(old(core).exchange.waiting@, self.id);
        }
        match core.exchange.take_idle() {
            Some(c) => AcquirePoll::Granted(c),
            None => {
                if core.exchange.outstanding < core.max_connections {
                    core.exchange.outstanding = core.exchange.outstanding + 1;
                    AcquirePoll::MustOpen
                } else {
                    proof {
                        lemma_push_keeps_distinct(
                            core.exchange.waiting@,
                            Entry { id: self.id, waker },
                        );
                    }
                    core.exchange.waiting.push(waker, self.id);
                    AcquirePoll::Pending
                }
            },
        }
    }

    /// Cancellation: the future was dropped before it resolved, so its
    /// registration is removed and no dead entry is left behind.
    pub fn cancel<C, W>(&self, core: &mut PoolCore<C, W>)
        requires
            inv(*old(core)),
        ensures
            inv(*final(core)),
            cancel_post(*old(core), *final(core), self.id),
            final(core).exchange.waiting@ == without_id(old(core).exchange.waiting@, self.id),
    {
        core.exchange.waiting.remove(self.id);
        proof {
            lemma_without_id_keeps_distinct(old(core).exchange.waiting@, self.id);
        }
    }

    /// The transport failed to open the fresh connection this future had
    /// claimed capacity for: the claim is released and the error surfaced
    /// to the caller.
    pub fn note_open_failed<C, W>(&self, core: &mut PoolCore<C, W>) -> (e: Error)
        requires
            inv(*old(core)),
            old(core).exchange.outstanding > 0,
        ensures
            inv(*final(core)),
            open_failed_post(*old(core), *final(core)),
            e == Error::ConnectionFactory,
            final(core).exchange.outstanding == old(core).exchange.outstanding - 1,
    {
        core.exchange.outstanding = core.exchange.outstanding - 1;
        Error::ConnectionFactory
    }
}

} // verus!
