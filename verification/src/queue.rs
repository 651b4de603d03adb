//! The waiter-notification queue: an ordered registry of wake handles keyed
//! by an id. It knows nothing about connections.
//!
//! Each pending acquire registers one entry under its own id so that the
//! entry can be removed if the acquire is cancelled. Shutdown waiters
//! register under the reserved id [`QUEUE_END_ID`]; such status-listener
//! entries are re-pushed on every poll and never removed individually.
//! Waking drains the whole queue in insertion order; a woken task that is
//! still unsatisfied must re-register.

use vstd::prelude::*;

verus! {

/// Reserved id for status-listener entries: waiters that want to hear about
/// any state change and are never removed one by one.
pub const QUEUE_END_ID: u64 = u64::MAX;

/// One registered waiter: a wake handle filed under an id.
pub struct Entry<W> {
    pub id: u64,
    pub waker: W,
}

/// Ordered (FIFO) registry of wake handles keyed by an id.
pub struct WaitingQueue<W> {
    pub entries: Vec<Entry<W>>,
}

impl<W> View for WaitingQueue<W> {
    type V = Seq<Entry<W>>;

    open spec fn view(&self) -> Seq<Entry<W>> {
        self.entries@
    }
}

/// The entries of `s` whose id differs from `id`, in order.
pub open spec fn without_id<W>(s: Seq<Entry<W>>, id: u64) -> Seq<Entry<W>> {
    s.filter(|e: Entry<W>| e.id != id)
}

/// No id other than the reserved status-listener id appears twice: each
/// pending acquire has at most one entry. Status listeners may pile up,
/// since their owners re-push them on every poll.
pub open spec fn ids_distinct<W>(s: Seq<Entry<W>>) -> bool {
    forall|i: int, j: int|
        0 <= i < j < s.len() && #[trigger] s[i].id == #[trigger] s[j].id ==> s[i].id
            == QUEUE_END_ID
}

/// No entry of `s` carries the id `x`.
pub open spec fn id_absent<W>(s: Seq<Entry<W>>, x: u64) -> bool {
    forall|i: int| 0 <= i < s.len() ==> (#[trigger] s[i].id) != x
}

/// Removing an id removes every entry that carried it.
pub proof fn lemma_without_id_absent<W>(s: Seq<Entry<W>>, id: u64)
    ensures
        id_absent(without_id(s, id), id),
{
    broadcast use vstd::seq_lib::group_filter_ensures;

}

/// Removing an id introduces no entry under any other id either.
pub proof fn lemma_without_id_no_new_ids<W>(s: Seq<Entry<W>>, id: u64, x: u64)
    requires
        id_absent(s, x),
    ensures
        id_absent(without_id(s, id), x),
    decreases s.len(),
{
    reveal_with_fuel(Seq::filter, 2);
    if s.len() == 0 {
        assert(s =~= Seq::<Entry<W>>::empty());
    } else {
        let t = s.drop_last();
        lemma_without_id_no_new_ids(t, id, x);
        if s.last().id != id {
            assert(without_id(s, id) == without_id(t, id).push(s.last()));
        } else {
            assert(without_id(s, id) == without_id(t, id));
        }
    }
}

/// Removing an id keeps the remaining ids distinct.
pub proof fn lemma_without_id_keeps_distinct<W>(s: Seq<Entry<W>>, id: u64)
    requires
        ids_distinct(s),
    ensures
        ids_distinct(without_id(s, id)),
    decreases s.len(),
{
    reveal_with_fuel(Seq::filter, 2);
    if s.len() == 0 {
        assert(s =~= Seq::<Entry<W>>::empty());
    } else {
        let t = s.drop_last();
        let e = s.last();
        assert(forall|i: int, j: int|
            0 <= i < j < t.len() && #[trigger] t[i].id == #[trigger] t[j].id ==> t[i].id
                == QUEUE_END_ID) by {
            assert(forall|i: int| 0 <= i < t.len() ==> t[i] == s[i]);
        }
        lemma_without_id_keeps_distinct(t, id);
        if e.id != id {
            assert(without_id(s, id) == without_id(t, id).push(e));
            if e.id != QUEUE_END_ID {
                assert(id_absent(t, e.id)) by {
                    assert(forall|i: int| 0 <= i < t.len() ==> t[i] == s[i]);
                }
                lemma_without_id_no_new_ids(t, id, e.id);
                lemma_push_keeps_distinct(without_id(t, id), e);
            } else {
                lemma_push_sentinel_keeps_distinct(without_id(t, id), e);
            }
        } else {
            assert(without_id(s, id) == without_id(t, id));
        }
    }
}

/// Appending an entry whose id is absent keeps the ids distinct.
pub proof fn lemma_push_keeps_distinct<W>(s: Seq<Entry<W>>, e: Entry<W>)
    requires
        ids_distinct(s),
        id_absent(s, e.id),
    ensures
        ids_distinct(s.push(e)),
{
    let p = s.push(e);
    assert(forall|i: int| 0 <= i < s.len() ==> p[i] == s[i]);
    assert(p[s.len() as int] == e);
}

/// Appending a status listener keeps the ids distinct: the reserved id is
/// exempt from uniqueness.
pub proof fn lemma_push_sentinel_keeps_distinct<W>(s: Seq<Entry<W>>, e: Entry<W>)
    requires
        ids_distinct(s),
        e.id == QUEUE_END_ID,
    ensures
        ids_distinct(s.push(e)),
{
    let p = s.push(e);
    assert(forall|i: int| 0 <= i < s.len() ==> p[i] == s[i]);
    assert(p[s.len() as int] == e);
}

/// Appending an entry under `id` does not change what remains once `id` is
/// removed.
pub proof fn lemma_without_id_push_same<W>(s: Seq<Entry<W>>, id: u64, e: Entry<W>)
    requires
        e.id == id,
    ensures
        without_id(s.push(e), id) == without_id(s, id),
{
    reveal_with_fuel(Seq::filter, 2);
    assert(s.push(e).drop_last() =~= s);
}

/// Appending an entry under another id commutes with removing `id`.
pub proof fn lemma_without_id_push_other<W>(s: Seq<Entry<W>>, id: u64, e: Entry<W>)
    requires
        e.id != id,
    ensures
        without_id(s.push(e), id) == without_id(s, id).push(e),
{
    reveal_with_fuel(Seq::filter, 2);
    assert(s.push(e).drop_last() =~= s);
}

/// Removing an id a second time changes nothing.
pub proof fn lemma_without_id_idempotent<W>(s: Seq<Entry<W>>, id: u64)
    ensures
        without_id(without_id(s, id), id) == without_id(s, id),
    decreases s.len(),
{
    reveal_with_fuel(Seq::filter, 2);
    if s.len() == 0 {
        assert(s =~= Seq::<Entry<W>>::empty());
    } else {
        let t = s.drop_last();
        lemma_without_id_idempotent(t, id);
        if s.last().id != id {
            assert(without_id(s, id) == without_id(t, id).push(s.last()));
            lemma_without_id_push_other(without_id(t, id), id, s.last());
        } else {
            assert(without_id(s, id) == without_id(t, id));
        }
    }
}

/// Removing an id never lengthens the queue.
pub proof fn lemma_without_id_len<W>(s: Seq<Entry<W>>, id: u64)
    ensures
        without_id(s, id).len() <= s.len(),
{
    s.lemma_filter_len(|e: Entry<W>| e.id != id);
}

impl<W> WaitingQueue<W> {
    /// An empty queue.
    pub fn new() -> (q: Self)
        ensures
            q@ =~= Seq::<Entry<W>>::empty(),
    {
        WaitingQueue { entries: Vec::new() }
    }

    /// How many waiters are registered.
    pub fn len(&self) -> (n: usize)
        ensures
            n == self@.len(),
    {
        self.entries.len()
    }

    /// Appends a waiter at the back of the queue.
    pub fn push(&mut self, waker: W, id: u64)
        ensures
            final(self)@ == old(self)@.push((Entry { id, waker })),
    {
        self.entries.push(Entry { id, waker });
    }

    /// Removes every entry registered under `id`, keeping all others in
    /// order. Used when a pending acquire is cancelled; never called with
    /// [`QUEUE_END_ID`].
    pub fn remove(&mut self, id: u64)
        ensures
            final(self)@ == without_id(old(self)@, id),
    {
        let ghost orig = self.entries@;
        let mut kept: Vec<Entry<W>> = Vec::new();
        while self.entries.len() > 0
            invariant
                self.entries@.len() <= orig.len(),
                self.entries@ =~= orig.subrange(
                    orig.len() - self.entries@.len(),
                    orig.len() as int,
                ),
                kept@ == without_id(
                    orig.subrange(0, orig.len() - self.entries@.len()),
                    id,
                ),
            decreases self.entries@.len(),
        {
            let ghost k: int = orig.len() - self.entries@.len();
            let e = self.entries.remove(0);
            proof {
                assert(orig.subrange(k, orig.len() as int).remove(0) =~= orig.subrange(
                    k + 1,
                    orig.len() as int,
                ));
                assert(orig.subrange(0, k + 1).drop_last() =~= orig.subrange(0, k));
                assert(orig.subrange(0, k + 1).last() == orig[k]);
                reveal_with_fuel(Seq::filter, 2);
            }
            if e.id != id {
                kept.push(e);
            }
        }
        proof {
            assert(orig.subrange(0, orig.len() as int) =~= orig);
        }
        self.entries = kept;
    }

    /// Drains the queue, handing back every registered entry in insertion
    /// order so the caller can invoke each wake handle. Entries are not
    /// requeued: a woken, still-unsatisfied task must register again.
    pub fn wake_all(&mut self) -> (ws: Vec<Entry<W>>)
        ensures
            ws@ == old(self)@,
            final(self)@ =~= Seq::<Entry<W>>::empty(),
    {
        let mut out: Vec<Entry<W>> = Vec::new();
        core::mem::swap(&mut out, &mut self.entries);
        out
    }
}

} // verus!
