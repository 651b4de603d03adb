//! The shutdown protocol: one `DisconnectPool` per `disconnect()` call.
//!
//! Every poll makes the shutdown request sticky, makes sure the reclamation
//! task exists, and registers a status listener; it resolves once the pool
//! is fully drained, or as soon as the reclamation task is discovered dead —
//! an exited reclamation task means no reclamation work remains tracked, so
//! nothing is left to wait for. The future never fails, and polling it after
//! the pool is closed resolves immediately without changing the pool.

use vstd::prelude::*;

use crate::pool::{inv, PoolCore};
use crate::queue::{lemma_push_sentinel_keeps_distinct, Entry, QUEUE_END_ID};

verus! {

/// What one poll of a disconnect future asks the runtime to do next.
pub enum DisconnectStatus {
    /// The disconnect is complete; resolve with success.
    Ready,
    /// Send the shutdown signal down the reclamation channel, then report
    /// the send's outcome with [`DisconnectPool::note_sent`].
    SendShutdown,
    /// Wait: the registered status listener will be woken when the pool
    /// finishes draining.
    Pending,
}

/// The full outcome of one disconnect poll.
pub struct DisconnectPoll {
    /// Whether the caller must start the background reclamation task: true
    /// on the one poll anywhere in the pool's life that first claims it.
    pub spawn_recycler: bool,
    /// What to do next.
    pub status: DisconnectStatus,
}

/// How [`DisconnectPool::poll_step`] relates the pool state before and
/// after one poll. The shutdown request is set (and stays set forever), the
/// reclamation task is claimed if it was not yet, and a status listener is
/// appended under the reserved id. Nothing else about the pool changes: no
/// connection moves, and the terminal flag is untouched. The poll resolves
/// at once on an already-closed pool, asks for the shutdown signal to be
/// sent exactly once per future, and otherwise waits.
pub open spec fn disconnect_poll_post<C, W>(
    pre: PoolCore<C, W>,
    post: PoolCore<C, W>,
    sent_before: bool,
    waker: W,
    r: DisconnectPoll,
) -> bool {
    &&& post.close_requested
    &&& post.closed == pre.closed
    &&& post.next_id == pre.next_id
    &&& post.max_connections == pre.max_connections
    &&& post.exchange.maintenance_spawned
    &&& r.spawn_recycler == !pre.exchange.maintenance_spawned
    &&& post.exchange.idle@ == pre.exchange.idle@
    &&& post.exchange.outstanding == pre.exchange.outstanding
    &&& post.exchange.waiting@ == pre.exchange.waiting@.push(
        (Entry { id: QUEUE_END_ID, waker }),
    )
    &&& r.status == if pre.closed {
        DisconnectStatus::Ready
    } else if !sent_before {
        DisconnectStatus::SendShutdown
    } else {
        DisconnectStatus::Pending
    }
}

/// A pending disconnect: the protocol state of one `disconnect()` call.
/// It resolves to success once the pool is drained and closed, and it never
/// resolves while a connection is still checked out or in transit.
#[derive(Debug)]
#[must_use]
pub struct DisconnectPool {
    /// Whether this future has already pushed the shutdown signal towards
    /// the reclamation task; the signal is sent at most once per future.
    pub shutdown_sent: bool,
}

impl DisconnectPool {
    /// Starts a disconnect. Nothing happens until the first poll.
    pub fn new() -> (d: Self)
        ensures
            !d.shutdown_sent,
    {
        DisconnectPool { shutdown_sent: false }
    }

    /// One poll of the disconnect, run under the pool lock with this poll's
    /// waker. It (re-)requests shutdown, claims the reclamation task if
    /// needed, registers a status listener, and resolves immediately when
    /// the pool has already closed; see [`disconnect_poll_post`].
    pub fn poll_step<C, W>(&self, core: &mut PoolCore<C, W>, waker: W) -> (r: DisconnectPoll)
        requires
            inv(*old(core)),
        ensures
            inv(*final(core)),
            disconnect_poll_post(*old(core), *final(core), self.shutdown_sent, waker, r),
            old(core).closed ==> r.status == DisconnectStatus::Ready,
    {
        core.close_requested = true;
        let spawn_recycler = core.exchange.spawn_maintenance_if_needed();
        proof {
            lemma_push_sentinel_keeps_distinct(
                core.exchange.waiting@,
                Entry { id: QUEUE_END_ID, waker },
            );
        }
        core.exchange.waiting.push(waker, QUEUE_END_ID);
        let status = if core.closed {
            DisconnectStatus::Ready
        } else if !self.shutdown_sent {
            DisconnectStatus::SendShutdown
        } else {
            DisconnectStatus::Pending
        };
        DisconnectPoll { spawn_recycler, status }
    }

    /// Reports the outcome of sending the shutdown signal. A delivered
    /// signal means the reclamation task is alive and will drain the pool,
    /// so the future keeps waiting. A failed send means the reclamation
    /// task has already exited and no one will ever wake this future from
    /// that side: the disconnect resolves at once.
    pub fn note_sent(&mut self, delivered: bool) -> (done: bool)
        ensures
            final(self).shutdown_sent,
            done == !delivered,
    {
        self.shutdown_sent = true;
        !delivered
    }
}

} // verus!
