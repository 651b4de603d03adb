//! The pool's mutex-guarded aggregate: idle-connection storage, live-count
//! accounting, the waiter queue, and the pending-maintenance flag. This is
//! the only place pool state is mutated; the runtime holds one lock around
//! each step that touches it.

use vstd::prelude::*;

use crate::queue::WaitingQueue;

verus! {

/// Idle connections, the waiter queue, and the live-count bookkeeping.
///
/// `outstanding` counts every connection that is currently checked out by a
/// caller or in flight to the reclamation task. A connection is idle,
/// checked out, or in transit — never more than one at a time — so the total
/// number of live connections is `idle.len() + outstanding`.
pub struct Exchange<C, W> {
    /// Connections available for immediate reuse, oldest first.
    pub idle: Vec<C>,
    /// Registered wake handles of pending acquires and status listeners.
    pub waiting: WaitingQueue<W>,
    /// Connections checked out or in flight to the reclamation task.
    pub outstanding: usize,
    /// Whether the background reclamation task has been started.
    pub maintenance_spawned: bool,
}

impl<C, W> Exchange<C, W> {
    /// An empty exchange: no connections live, nobody waiting, no
    /// maintenance task yet.
    pub fn new() -> (ex: Self)
        ensures
            ex.idle@ =~= Seq::<C>::empty(),
            ex.waiting@.len() == 0,
            ex.outstanding == 0,
            !ex.maintenance_spawned,
    {
        Exchange { idle: Vec::new(), waiting: WaitingQueue::new(), outstanding: 0, maintenance_spawned: false }
    }

    /// Marks the background reclamation task as started and says whether the
    /// caller must actually spawn it: only the call that first sets the flag
    /// gets `true`, so repeated calls start the task exactly once.
    pub fn spawn_maintenance_if_needed(&mut self) -> (start: bool)
        ensures
            start == !old(self).maintenance_spawned,
            final(self).maintenance_spawned,
            final(self).idle@ == old(self).idle@,
            final(self).waiting@ == old(self).waiting@,
            final(self).outstanding == old(self).outstanding,
    {
        let start = !self.maintenance_spawned;
        self.maintenance_spawned = true;
        start
    }

    /// Pops the most recently pooled idle connection and accounts for its
    /// checkout, or reports that none is available.
    pub fn take_idle(&mut self) -> (c: Option<C>)
        requires
            old(self).idle@.len() + old(self).outstanding <= usize::MAX,
        ensures
            final(self).waiting@ == old(self).waiting@,
            final(self).maintenance_spawned == old(self).maintenance_spawned,
            old(self).idle@.len() == 0 ==> c is None && final(self).idle@ == old(self).idle@
                && final(self).outstanding == old(self).outstanding,
            old(self).idle@.len() > 0 ==> c == Some(old(self).idle@.last())
                && final(self).idle@ == old(self).idle@.drop_last()
                && final(self).outstanding == old(self).outstanding + 1,
    {
        match self.idle.pop() {
            Some(c) => {
                self.outstanding = self.outstanding + 1;
                Some(c)
            },
            None => None,
        }
    }

    /// Puts a reclaimed connection back into the idle set.
    pub fn put_idle(&mut self, c: C)
        ensures
            final(self).idle@ == old(self).idle@.push(c),
            final(self).waiting@ == old(self).waiting@,
            final(self).outstanding == old(self).outstanding,
            final(self).maintenance_spawned == old(self).maintenance_spawned,
    {
        self.idle.push(c);
    }
}

} // verus!
