use crate::options::PoolOptions;
use vstd::prelude::*;

verus! {

/// One connection at rest in the pool: an opaque connection identity
/// together with the instants (in milliseconds) it was created and last
/// became idle. The connection object itself is held by the embedding
/// runtime, keyed by `conn_id`; the engine reads only these plain values.
#[derive(Clone, Copy, Debug, PartialEq, Eq, Structural)]
pub struct IdleEntry {
    /// Identity of the underlying connection.
    pub conn_id: u64,
    /// Instant the connection was established.
    pub created_at_ms: u64,
    /// Instant the connection last became idle.
    pub last_idle_at_ms: u64,
}

/// Whether a connection has been idle longer than the configured idle
/// timeout, or has lived longer than the configured maximum lifetime, at
/// instant `now_ms`. A stale connection is never handed to an acquirer.
pub open spec fn is_stale(e: IdleEntry, opts: PoolOptions, now_ms: u64) -> bool {
    ||| (opts.idle_timeout_ms matches Some(t) && now_ms > e.last_idle_at_ms + t)
    ||| (opts.max_lifetime_ms matches Some(l) && now_ms > e.created_at_ms + l)
}

/// Executable check for [`is_stale`].
pub fn stale_entry(e: &IdleEntry, opts: &PoolOptions, now_ms: u64) -> (r: bool)
    ensures
        r == is_stale(*e, *opts, now_ms),
{
    let mut stale = false;
    if let Some(t) = opts.idle_timeout_ms {
        if now_ms >= e.last_idle_at_ms && now_ms - e.last_idle_at_ms > t {
            stale = true;
        }
    }
    if let Some(l) = opts.max_lifetime_ms {
        if now_ms >= e.created_at_ms && now_ms - e.created_at_ms > l {
            stale = true;
        }
    }
    stale
}

/// The entries of `s` that are still fresh at `now_ms`, in their original
/// order.
pub open spec fn fresh_only(s: Seq<IdleEntry>, opts: PoolOptions, now_ms: u64) -> Seq<IdleEntry>
    decreases s.len(),
{
    if s.len() == 0 {
        s
    } else if is_stale(s.last(), opts, now_ms) {
        fresh_only(s.drop_last(), opts, now_ms)
    } else {
        fresh_only(s.drop_last(), opts, now_ms).push(s.last())
    }
}

/// The entries of `s` that are stale at `now_ms`, in their original order.
pub open spec fn stale_only(s: Seq<IdleEntry>, opts: PoolOptions, now_ms: u64) -> Seq<IdleEntry>
    decreases s.len(),
{
    if s.len() == 0 {
        s
    } else if is_stale(s.last(), opts, now_ms) {
        stale_only(s.drop_last(), opts, now_ms).push(s.last())
    } else {
        stale_only(s.drop_last(), opts, now_ms)
    }
}

/// Every entry of `fresh_only(s)` is fresh, and every entry of
/// `stale_only(s)` is stale; together they account for all of `s`.
pub proof fn lemma_split_by_staleness(s: Seq<IdleEntry>, opts: PoolOptions, now_ms: u64)
    ensures
        forall|i: int|
            0 <= i < fresh_only(s, opts, now_ms).len() ==> !is_stale(
                #[trigger] fresh_only(s, opts, now_ms)[i],
                opts,
                now_ms,
            ),
        forall|i: int|
            0 <= i < stale_only(s, opts, now_ms).len() ==> is_stale(
                #[trigger] stale_only(s, opts, now_ms)[i],
                opts,
                now_ms,
            ),
        fresh_only(s, opts, now_ms).len() + stale_only(s, opts, now_ms).len() == s.len(),
    decreases s.len(),
{
    if s.len() > 0 {
        lemma_split_by_staleness(s.drop_last(), opts, now_ms);
    }
}

/// The stale entries an acquire discards while scanning from the most
/// recent idle entry down: the maximal all-stale suffix of `s`, in the
/// order popped (most recent first).
pub open spec fn discard_pile(s: Seq<IdleEntry>, opts: PoolOptions, now_ms: u64) -> Seq<IdleEntry>
    decreases s.len(),
{
    if s.len() == 0 {
        Seq::<IdleEntry>::empty()
    } else if is_stale(s.last(), opts, now_ms) {
        seq![s.last()] + discard_pile(s.drop_last(), opts, now_ms)
    } else {
        Seq::<IdleEntry>::empty()
    }
}

/// What remains of the idle store once an acquire has discarded the
/// stale suffix: the longest prefix of `s` whose last entry is fresh.
pub open spec fn fresh_prefix(s: Seq<IdleEntry>, opts: PoolOptions, now_ms: u64) -> Seq<IdleEntry>
    decreases s.len(),
{
    if s.len() == 0 {
        s
    } else if is_stale(s.last(), opts, now_ms) {
        fresh_prefix(s.drop_last(), opts, now_ms)
    } else {
        s
    }
}

/// The acquire scan discards exactly the stale suffix: prefix and pile
/// together account for all of `s`, everything discarded is stale, and
/// the candidate the scan stops at is fresh.
pub proof fn lemma_acquire_scan(s: Seq<IdleEntry>, opts: PoolOptions, now_ms: u64)
    ensures
        fresh_prefix(s, opts, now_ms).len() + discard_pile(s, opts, now_ms).len() == s.len(),
        fresh_prefix(s, opts, now_ms).len() > 0 ==> !is_stale(
            fresh_prefix(s, opts, now_ms).last(),
            opts,
            now_ms,
        ),
        forall|i: int|
            0 <= i < discard_pile(s, opts, now_ms).len() ==> is_stale(
                #[trigger] discard_pile(s, opts, now_ms)[i],
                opts,
                now_ms,
            ),
    decreases s.len(),
{
    if s.len() > 0 && is_stale(s.last(), opts, now_ms) {
        let t = s.drop_last();
        lemma_acquire_scan(t, opts, now_ms);
        assert forall|i: int| 0 <= i < discard_pile(s, opts, now_ms).len() implies is_stale(
            #[trigger] discard_pile(s, opts, now_ms)[i],
            opts,
            now_ms,
        ) by {
            if i == 0 {
                assert(discard_pile(s, opts, now_ms)[0] == s.last());
            } else {
                assert(discard_pile(s, opts, now_ms)[i] == discard_pile(t, opts, now_ms)[i - 1]);
            }
        }
    }
}

/// The bounded store of idle connections, ordered by recency: the entry
/// pushed last is the one popped first, so acquirers get the warmest
/// connection and older ones age out through the idle timeout.
pub struct IdleStore {
    entries: Vec<IdleEntry>,
}

impl View for IdleStore {
    type V = Seq<IdleEntry>;

    /// The stored entries, oldest first; the most recently idled entry is
    /// the last.
    closed spec fn view(&self) -> Seq<IdleEntry> {
        self.entries@
    }
}

impl IdleStore {
    /// An empty store.
    pub fn new() -> (r: IdleStore)
        ensures
            r@ == Seq::<IdleEntry>::empty(),
    {
        IdleStore { entries: Vec::new() }
    }

    /// Number of idle connections held.
    pub fn len(&self) -> (r: usize)
        ensures
            r == self@.len(),
    {
        self.entries.len()
    }

    /// Park a connection in the store; it becomes the most recent entry.
    pub fn push(&mut self, e: IdleEntry)
        ensures
            final(self)@ == old(self)@.push(e),
    {
        self.entries.push(e);
    }

    /// Take the most recently idled connection, if any.
    pub fn pop_most_recent(&mut self) -> (r: Option<IdleEntry>)
        ensures
            old(self)@.len() == 0 ==> r is None && final(self)@ == old(self)@,
            old(self)@.len() > 0 ==> r == Some(old(self)@.last()) && final(self)@ == old(
                self,
            )@.drop_last(),
    {
        self.entries.pop()
    }

    /// Empty the store, returning every entry — the shutdown drain: each
    /// returned connection is closed by the caller.
    pub fn take_all(&mut self) -> (all: Vec<IdleEntry>)
        ensures
            final(self)@ == Seq::<IdleEntry>::empty(),
            all@ == old(self)@,
    {
        let mut all: Vec<IdleEntry> = Vec::new();
        std::mem::swap(&mut all, &mut self.entries);
        all
    }

    /// Remove every entry past its idle or lifetime bound, returning the
    /// evicted entries in their stored order; the surviving entries keep
    /// their relative order. This is the maintenance scan: an entry is
    /// either evicted here or left for acquirers, never both.
    pub fn evict_expired(&mut self, opts: &PoolOptions, now_ms: u64) -> (evicted: Vec<IdleEntry>)
        ensures
            final(self)@ == fresh_only(old(self)@, *opts, now_ms),
            evicted@ == stale_only(old(self)@, *opts, now_ms),
    {
        let ghost s = self.entries@;
        let mut kept: Vec<IdleEntry> = Vec::new();
        let mut evicted: Vec<IdleEntry> = Vec::new();
        let n = self.entries.len();
        let mut i: usize = 0;
        while i < n
            invariant
                n == s.len(),
                i <= n,
                self.entries@ == s,
                kept@ == fresh_only(s.take(i as int), *opts, now_ms),
                evicted@ == stale_only(s.take(i as int), *opts, now_ms),
            decreases n - i,
        {
            let e = self.entries[i];
            proof {
                assert(s.take(i + 1 as int).drop_last() =~= s.take(i as int));
                assert(s.take(i + 1 as int).last() == s[i as int]);
            }
            if stale_entry(&e, opts, now_ms) {
                evicted.push(e);
            } else {
                kept.push(e);
            }
            i = i + 1;
        }
        proof {
            assert(s.take(n as int) =~= s);
        }
        self.entries = kept;
        evicted
    }
}

} // verus!
