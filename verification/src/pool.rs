//! The pool's lifecycle state and the reclamation protocol.
//!
//! `PoolCore` gathers the exchange and the two shutdown flags. The runtime
//! keeps it behind one lock; each method here is the decision made during
//! one critical section. `returned` is the reclamation task's handling of a
//! connection coming back, and `try_finish` is the shutdown-drain check that
//! raises `closed` — the only place that flag is ever set, and only once no
//! connection is checked out or in transit any more.

use vstd::prelude::*;

use crate::exchange::Exchange;
use crate::queue::{ids_distinct, Entry};

verus! {

/// The shared pool state guarded by the runtime's lock.
pub struct PoolCore<C, W> {
    /// Idle connections, waiters, and live-count accounting.
    pub exchange: Exchange<C, W>,
    /// Sticky shutdown request: once true, never reset, and every new
    /// acquire is rejected.
    pub close_requested: bool,
    /// Terminal flag: the pool is fully drained and shut down. Raised only
    /// by [`PoolCore::try_finish`], after `close_requested` is set and
    /// `outstanding` has reached zero.
    pub closed: bool,
    /// Next id to hand to an acquire future; ids grow monotonically and
    /// never reach the reserved status-listener id.
    pub next_id: u64,
    /// Upper bound on live connections (idle + checked out + in transit).
    pub max_connections: usize,
}

/// What stays true of the pool between critical sections.
///
/// A closed pool holds no connection at all — none checked out, none in
/// transit, none idle — so shutdown can never be observed complete while a
/// connection is still reachable. The live count never exceeds the
/// configured bound. And no pending acquire ever has two entries in the
/// waiting queue: every poll replaces the previous registration.
pub open spec fn inv<C, W>(p: PoolCore<C, W>) -> bool {
    &&& p.closed ==> p.close_requested && p.exchange.outstanding == 0 && p.exchange.idle@.len()
        == 0
    &&& p.exchange.idle@.len() + p.exchange.outstanding <= p.max_connections
    &&& ids_distinct(p.exchange.waiting@)
}

/// The lifecycle-relevant part of two states is the same: flags, live
/// count, and pooled connections.
pub open spec fn same_lifecycle<C, W>(a: PoolCore<C, W>, b: PoolCore<C, W>) -> bool {
    &&& a.close_requested == b.close_requested
    &&& a.closed == b.closed
    &&& a.exchange.outstanding == b.exchange.outstanding
    &&& a.exchange.idle@ == b.exchange.idle@
}

/// How [`PoolCore::returned`] relates the state before and after a
/// connection comes back through the reclamation task: the live count drops
/// by one; a valid connection returned to a pool that is not closing is
/// pooled as idle and every waiter is handed back to be woken, while any
/// other connection is handed back to be closed and nobody is woken.
pub open spec fn returned_post<C, W>(
    pre: PoolCore<C, W>,
    post: PoolCore<C, W>,
    c: C,
    valid: bool,
    discard: Option<C>,
    woken: Seq<Entry<W>>,
) -> bool {
    &&& post.close_requested == pre.close_requested
    &&& post.closed == pre.closed
    &&& post.next_id == pre.next_id
    &&& post.max_connections == pre.max_connections
    &&& post.exchange.maintenance_spawned == pre.exchange.maintenance_spawned
    &&& post.exchange.outstanding == pre.exchange.outstanding - 1
    &&& if valid && !pre.close_requested {
        &&& discard is None
        &&& post.exchange.idle@ == pre.exchange.idle@.push(c)
        &&& woken == pre.exchange.waiting@
        &&& post.exchange.waiting@.len() == 0
    } else {
        &&& discard == Some(c)
        &&& post.exchange.idle@ == pre.exchange.idle@
        &&& post.exchange.waiting@ == pre.exchange.waiting@
        &&& woken.len() == 0
    }
}

/// How [`PoolCore::try_finish`] relates the state before and after the
/// shutdown-drain check: it completes exactly when shutdown was requested
/// and no connection is checked out or in transit; completing raises
/// `closed`, empties the idle set (handing the connections back to be
/// closed), and hands back every waiter to be woken. Otherwise nothing
/// changes.
pub open spec fn finish_post<C, W>(
    pre: PoolCore<C, W>,
    post: PoolCore<C, W>,
    done: bool,
    drained: Seq<C>,
    woken: Seq<Entry<W>>,
) -> bool {
    &&& post.close_requested == pre.close_requested
    &&& post.next_id == pre.next_id
    &&& post.max_connections == pre.max_connections
    &&& post.exchange.maintenance_spawned == pre.exchange.maintenance_spawned
    &&& post.exchange.outstanding == pre.exchange.outstanding
    &&& done == (pre.close_requested && pre.exchange.outstanding == 0)
    &&& if done {
        &&& post.closed
        &&& drained == pre.exchange.idle@
        &&& post.exchange.idle@.len() == 0
        &&& woken == pre.exchange.waiting@
        &&& post.exchange.waiting@.len() == 0
    } else {
        &&& post.closed == pre.closed
        &&& post.exchange.idle@ == pre.exchange.idle@
        &&& post.exchange.waiting@ == pre.exchange.waiting@
        &&& drained.len() == 0
        &&& woken.len() == 0
    }
}

impl<C, W> PoolCore<C, W> {
    /// A fresh pool that may hold at most `max_connections` live
    /// connections.
    pub fn new(max_connections: usize) -> (p: Self)
        ensures
            inv(p),
            !p.close_requested,
            !p.closed,
            p.next_id == 0,
            p.max_connections == max_connections,
            p.exchange.idle@.len() == 0,
            p.exchange.waiting@.len() == 0,
            p.exchange.outstanding == 0,
            !p.exchange.maintenance_spawned,
    {
        PoolCore {
            exchange: Exchange::new(),
            close_requested: false,
            closed: false,
            next_id: 0,
            max_connections,
        }
    }

    /// The reclamation task's decision for a connection coming back, after
    /// the transport has reset and validated it (`valid`). A good
    /// connection returned to an open pool re-enters the idle set and every
    /// waiter is handed back so the runtime can wake it; any other
    /// connection is handed back in `discard` to be closed. Either way one
    /// outstanding connection has been accounted for.
    pub fn returned(&mut self, c: C, valid: bool) -> (r: (Option<C>, Vec<Entry<W>>))
        requires
            inv(*old(self)),
            old(self).exchange.outstanding > 0,
        ensures
            inv(*final(self)),
            returned_post(*old(self), *final(self), c, valid, r.0, r.1@),
    {
        if valid && !self.close_requested {
            self.exchange.outstanding = self.exchange.outstanding - 1;
            self.exchange.put_idle(c);
            let woken = self.exchange.waiting.wake_all();
            (None, woken)
        } else {
            self.exchange.outstanding = self.exchange.outstanding - 1;
            (Some(c), Vec::new())
        }
    }

    /// The shutdown-drain check, run by the reclamation task after shutdown
    /// was signalled and after each piece of drain progress. When shutdown
    /// was requested and nothing is outstanding any more, this raises the
    /// terminal `closed` flag, hands back the remaining idle connections to
    /// be closed, and hands back every waiter — the status listeners of
    /// pending disconnects among them — so the runtime can wake them.
    pub fn try_finish(&mut self) -> (r: (bool, Vec<C>, Vec<Entry<W>>))
        requires
            inv(*old(self)),
        ensures
            inv(*final(self)),
            finish_post(*old(self), *final(self), r.0, r.1@, r.2@),
    {
        if self.close_requested && self.exchange.outstanding == 0 {
            self.closed = true;
            let mut drained: Vec<C> = Vec::new();
            core::mem::swap(&mut drained, &mut self.exchange.idle);
            let woken = self.exchange.waiting.wake_all();
            (true, drained, woken)
        } else {
            (false, Vec::new(), Vec::new())
        }
    }
}

} // verus!
