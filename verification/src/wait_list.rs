use vstd::prelude::*;

verus! {

/// One pending acquire call: a ticket number handed out in arrival order,
/// and the instant (in milliseconds) the caller started waiting. The
/// single-use wake signal itself belongs to the embedding runtime, keyed
/// by `waiter_id`.
#[derive(Clone, Copy, Debug, PartialEq, Eq, Structural)]
pub struct Waiter {
    /// Ticket number; strictly increasing in arrival order.
    pub waiter_id: u64,
    /// Instant the caller enqueued.
    pub enqueued_at_ms: u64,
}

/// Whether some waiter in `s` holds ticket `id`.
pub open spec fn has_waiter(s: Seq<Waiter>, id: u64) -> bool {
    exists|i: int| 0 <= i < s.len() && s[i].waiter_id == id
}

/// `s` with every waiter holding ticket `id` removed, order of the rest
/// kept. Tickets are unique in a well-formed queue, so at most one waiter
/// leaves.
pub open spec fn without_waiter(s: Seq<Waiter>, id: u64) -> Seq<Waiter>
    decreases s.len(),
{
    if s.len() == 0 {
        s
    } else if s.last().waiter_id == id {
        without_waiter(s.drop_last(), id)
    } else {
        without_waiter(s.drop_last(), id).push(s.last())
    }
}

/// Waiter tickets strictly increase along the queue: the front waiter is
/// the earliest arrival.
pub open spec fn waiter_ids_increasing(s: Seq<Waiter>) -> bool {
    forall|i: int, j: int|
        0 <= i < j < s.len() ==> (#[trigger] s[i]).waiter_id < (#[trigger] s[j]).waiter_id
}

/// Removing a waiter by ticket keeps a subset of the queue in its
/// original relative order: every survivor was already enqueued, and
/// increasing ticket order is preserved.
pub proof fn lemma_without_waiter_props(s: Seq<Waiter>, id: u64)
    ensures
        forall|w: Waiter| #[trigger] without_waiter(s, id).contains(w) ==> s.contains(w),
        waiter_ids_increasing(s) ==> waiter_ids_increasing(without_waiter(s, id)),
    decreases s.len(),
{
    if s.len() > 0 {
        let t = s.drop_last();
        lemma_without_waiter_props(t, id);
        assert forall|w: Waiter| #[trigger] t.contains(w) implies s.contains(w) by {
            let k = choose|k: int| 0 <= k < t.len() && t[k] == w;
            assert(s[k] == w);
        }
        assert(s[s.len() - 1] == s.last());
        assert forall|w: Waiter| #[trigger] without_waiter(s, id).contains(w) implies s.contains(
            w,
        ) by {
            let full = without_waiter(s, id);
            let r = without_waiter(t, id);
            let k = choose|k: int| 0 <= k < full.len() && full[k] == w;
            if s.last().waiter_id == id {
                assert(r[k] == w);
                assert(r.contains(w));
            } else {
                assert(full == r.push(s.last()));
                if k < full.len() - 1 {
                    assert(r[k] == w);
                    assert(r.contains(w));
                } else {
                    assert(w == s.last());
                    assert(s[s.len() - 1] == w);
                }
            }
        }
        if waiter_ids_increasing(s) {
            assert forall|i: int, j: int| 0 <= i < j < t.len() implies (
            #[trigger] t[i]).waiter_id < (#[trigger] t[j]).waiter_id by {
                assert(t[i] == s[i]);
                assert(t[j] == s[j]);
            }
            if s.last().waiter_id != id {
                let r = without_waiter(t, id);
                let full = without_waiter(s, id);
                assert(full == r.push(s.last()));
                assert forall|i: int, j: int| 0 <= i < j < full.len() implies (
                #[trigger] full[i]).waiter_id < (#[trigger] full[j]).waiter_id by {
                    if j < full.len() - 1 {
                        assert(full[i] == r[i]);
                        assert(full[j] == r[j]);
                    } else {
                        assert(full[j] == s.last());
                        assert(full[i] == r[i]);
                        assert(r.contains(r[i]));
                        assert(t.contains(r[i]));
                        let k = choose|k: int| 0 <= k < t.len() && t[k] == r[i];
                        assert(s[k] == r[i]);
                        assert(s[k].waiter_id < s[s.len() - 1].waiter_id);
                    }
                }
            }
        }
    }
}

/// The queue of pending acquire calls, first come first served: the
/// waiter that enqueued first is at the front and is the one woken first.
pub struct WaitList {
    queue: Vec<Waiter>,
}

impl View for WaitList {
    type V = Seq<Waiter>;

    /// The pending waiters, front (longest waiting) first.
    closed spec fn view(&self) -> Seq<Waiter> {
        self.queue@
    }
}

impl WaitList {
    /// An empty queue.
    pub fn new() -> (r: WaitList)
        ensures
            r@ == Seq::<Waiter>::empty(),
    {
        WaitList { queue: Vec::new() }
    }

    /// Number of pending waiters.
    pub fn len(&self) -> (r: usize)
        ensures
            r == self@.len(),
    {
        self.queue.len()
    }

    /// Join the back of the queue.
    pub fn enqueue(&mut self, w: Waiter)
        ensures
            final(self)@ == old(self)@.push(w),
    {
        self.queue.push(w);
    }

    /// Take the longest-waiting waiter, if any; the rest keep their order.
    pub fn pop_front(&mut self) -> (r: Option<Waiter>)
        ensures
            old(self)@.len() == 0 ==> r is None && final(self)@ == old(self)@,
            old(self)@.len() > 0 ==> r == Some(old(self)@.first()) && final(self)@ == old(
                self,
            )@.drop_first(),
    {
        if self.queue.len() == 0 {
            None
        } else {
            let w = self.queue.remove(0);
            proof {
                assert(self.queue@ =~= old(self)@.drop_first());
            }
            Some(w)
        }
    }

    /// Empty the queue, returning every pending ticket in queue order —
    /// the shutdown path: each returned waiter is woken and finds the
    /// pool closed.
    pub fn drain_ids(&mut self) -> (ids: Vec<u64>)
        ensures
            final(self)@ == Seq::<Waiter>::empty(),
            ids@ == old(self)@.map_values(|w: Waiter| w.waiter_id),
    {
        let ghost s = self.queue@;
        let mut ids: Vec<u64> = Vec::new();
        let n = self.queue.len();
        let mut i: usize = 0;
        while i < n
            invariant
                n == s.len(),
                i <= n,
                self.queue@ == s,
                ids@ == s.take(i as int).map_values(|w: Waiter| w.waiter_id),
            decreases n - i,
        {
            ids.push(self.queue[i].waiter_id);
            proof {
                assert(s.take(i + 1 as int).map_values(|w: Waiter| w.waiter_id) =~= s.take(
                    i as int,
                ).map_values(|w: Waiter| w.waiter_id).push(s[i as int].waiter_id));
            }
            i = i + 1;
        }
        proof {
            assert(s.take(n as int) =~= s);
        }
        self.queue = Vec::new();
        ids
    }

    /// Leave the queue without being woken — the cancellation and timeout
    /// path. Nobody else is woken, and the others keep their order.
    pub fn remove(&mut self, id: u64) -> (found: bool)
        ensures
            final(self)@ == without_waiter(old(self)@, id),
            found == has_waiter(old(self)@, id),
    {
        let ghost s = self.queue@;
        let mut kept: Vec<Waiter> = Vec::new();
        let mut found = false;
        let n = self.queue.len();
        let mut i: usize = 0;
        while i < n
            invariant
                n == s.len(),
                i <= n,
                self.queue@ == s,
                kept@ == without_waiter(s.take(i as int), id),
                found == has_waiter(s.take(i as int), id),
            decreases n - i,
        {
            let w = self.queue[i];
            proof {
                assert(s.take(i + 1 as int).drop_last() =~= s.take(i as int));
                assert(s.take(i + 1 as int).last() == s[i as int]);
                if w.waiter_id == id {
                    assert(has_waiter(s.take(i + 1 as int), id)) by {
                        assert(s.take(i + 1 as int)[i as int].waiter_id == id);
                    }
                } else {
                    assert(has_waiter(s.take(i + 1 as int), id) == has_waiter(
                        s.take(i as int),
                        id,
                    )) by {
                        if has_waiter(s.take(i + 1 as int), id) {
                            let k = choose|k: int|
                                0 <= k < s.take(i + 1 as int).len() && (#[trigger] s.take(
                                    i + 1 as int,
                                )[k]).waiter_id == id;
                            if k < i {
                                assert(s.take(i as int)[k].waiter_id == id);
                            }
                        }
                        if has_waiter(s.take(i as int), id) {
                            let k = choose|k: int|
                                0 <= k < s.take(i as int).len() && (#[trigger] s.take(
                                    i as int,
                                )[k]).waiter_id == id;
                            assert(s.take(i + 1 as int)[k].waiter_id == id);
                        }
                    }
                }
            }
            if w.waiter_id == id {
                found = true;
            } else {
                kept.push(w);
            }
            i = i + 1;
        }
        proof {
            assert(s.take(n as int) =~= s);
        }
        self.queue = kept;
        found
    }
}

} // verus!
