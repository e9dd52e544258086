use crate::idle::{
    discard_pile, fresh_prefix, is_stale, lemma_acquire_scan, stale_entry, IdleEntry, IdleStore,
};
use crate::options::{ConnectOptions, PoolOptions};
use crate::wait_list::{waiter_ids_increasing, WaitList, Waiter};
use vstd::prelude::*;

verus! {

/// What an acquire attempt asks of the caller next.
#[derive(Clone, Copy, Debug)]
pub enum AcquireStep {
    /// This connection is checked out and ready to use.
    Ready { conn: IdleEntry },
    /// This connection is checked out, but must be vetted first: ping it
    /// and run the `before_acquire` hook, then report the verdict to
    /// [`Pool::on_test_result`].
    Test { conn: IdleEntry },
    /// A permit is reserved: establish a new connection within
    /// `connect_timeout`, then report to [`Pool::on_connect_result`].
    Establish,
    /// The pool is at capacity: the caller now stands in the waiter
    /// queue under this ticket, and suspends until woken or until its
    /// own deadline expires (then [`Pool::cancel_waiter`]).
    Wait { waiter_id: u64 },
    /// The pool has been closed; nothing can be acquired.
    PoolClosed,
}

/// Result of one acquire transition: the next step for the caller, and
/// the stale idle connections the transition discarded, which the caller
/// must close. Each discarded connection's permit has been released.
#[derive(Debug)]
pub struct AcquireOutcome {
    /// Stale connections removed from the idle store; close them.
    pub discarded: Vec<IdleEntry>,
    /// What to do next.
    pub step: AcquireStep,
}

/// What becomes of a released connection.
#[derive(Clone, Copy, Debug)]
pub enum ReleaseAction {
    /// The connection went back to the idle store.
    Idled,
    /// The connection was handed directly to the longest-waiting
    /// acquirer: wake that waiter and give it `conn` (it is checked out
    /// on the waiter's behalf; vet it first if the options ask for it).
    HandOff { waiter_id: u64, conn: IdleEntry },
    /// The connection must be closed: its permit is released. If `woken`
    /// is set, wake that waiter so it can use the freed capacity.
    Close { woken: Option<u64> },
}

/// The pool engine: permit accounting, the idle store, the waiter queue,
/// and the configuration, advanced by atomic transitions.
///
/// Everything that can block — establishing a connection, pinging it,
/// running a hook, suspending a waiter — happens outside, between
/// transitions; each outcome is reported back through the matching
/// `on_*` transition. The embedding runtime serializes transitions (they
/// are the pool's short critical sections) and never holds that
/// exclusivity across blocking work.
pub struct Pool {
    /// Immutable configuration.
    pub options: PoolOptions,
    /// Connector configuration, carried for the connector.
    pub connect_options: ConnectOptions,
    /// Live connections: idle + checked out + establishing. The sole
    /// admission gate; never exceeds `options.max_connections`.
    pub permits: u32,
    /// Connections currently owned by an acquirer.
    pub checked_out: u32,
    /// Connections currently being established.
    pub establishing: u32,
    /// Established, unborrowed connections, most recent last.
    pub idle: IdleStore,
    /// Pending acquire calls, longest waiting first.
    pub waiters: WaitList,
    /// Set once the pool is shut down.
    pub closed: bool,
    /// Next connection identity to hand out.
    pub next_conn_id: u64,
    /// Next waiter ticket to hand out.
    pub next_waiter_id: u64,
}

impl Pool {
    /// Well-formedness: the permit count is the exact number of live
    /// connections and stays within the configured maximum, and waiter
    /// tickets stand in the queue in strictly increasing (arrival)
    /// order, all below the next ticket to be issued.
    pub open spec fn wf(self) -> bool {
        &&& self.options.wf()
        &&& self.permits <= self.options.max_connections
        &&& self.permits == self.idle@.len() + self.checked_out + self.establishing
        &&& waiter_ids_increasing(self.waiters@)
        &&& forall|i: int|
            0 <= i < self.waiters@.len() ==> (#[trigger] self.waiters@[i]).waiter_id
                < self.next_waiter_id
    }

    /// A pool with no connections and no waiters.
    pub(crate) fn start(options: PoolOptions, connect_options: ConnectOptions) -> (r: Pool)
        requires
            options.wf(),
        ensures
            r.wf(),
            r.options == options,
            r.connect_options.uri@ == connect_options.uri@,
            r.permits == 0 && r.checked_out == 0 && r.establishing == 0,
            r.idle@.len() == 0,
            r.waiters@.len() == 0,
            !r.closed,
            r.next_conn_id == 1 && r.next_waiter_id == 1,
    {
        Pool {
            options,
            connect_options,
            permits: 0,
            checked_out: 0,
            establishing: 0,
            idle: IdleStore::new(),
            waiters: WaitList::new(),
            closed: false,
            next_conn_id: 1,
            next_waiter_id: 1,
        }
    }
}

/// The fields no acquire or release transition touches.
pub open spec fn same_config(pre: Pool, post: Pool) -> bool {
    &&& post.options == pre.options
    &&& post.connect_options.uri@ == pre.connect_options.uri@
    &&& post.closed == pre.closed
}

/// No change at all.
pub open spec fn pool_unchanged(pre: Pool, post: Pool) -> bool {
    &&& same_config(pre, post)
    &&& post.permits == pre.permits
    &&& post.checked_out == pre.checked_out
    &&& post.establishing == pre.establishing
    &&& post.idle@ == pre.idle@
    &&& post.waiters@ == pre.waiters@
    &&& post.next_conn_id == pre.next_conn_id
    &&& post.next_waiter_id == pre.next_waiter_id
}

/// The core acquire transition, for a caller that does not have to yield
/// to the waiter queue: pop idle connections from the most recent down,
/// discarding stale ones (each discard releases its permit); hand out the
/// first fresh one, vetted if the options ask for it; with the idle store
/// drained, reserve a permit for a fresh establishment if capacity
/// remains, else enqueue the caller as a waiter.
pub open spec fn acquire_transition(
    pre: Pool,
    post: Pool,
    discarded: Seq<IdleEntry>,
    step: AcquireStep,
    now_ms: u64,
) -> bool {
    let opts = pre.options;
    let pile = discard_pile(pre.idle@, opts, now_ms);
    let pfx = fresh_prefix(pre.idle@, opts, now_ms);
    if pre.closed {
        &&& pool_unchanged(pre, post)
        &&& step is PoolClosed
        &&& discarded == Seq::<IdleEntry>::empty()
    } else {
        &&& same_config(pre, post)
        &&& discarded == pile
        &&& post.next_conn_id == pre.next_conn_id
        &&& if pfx.len() > 0 {
            &&& step == if opts.needs_test() {
                (AcquireStep::Test { conn: pfx.last() })
            } else {
                (AcquireStep::Ready { conn: pfx.last() })
            }
            &&& post.idle@ == pfx.drop_last()
            &&& post.checked_out == pre.checked_out + 1
            &&& post.establishing == pre.establishing
            &&& post.permits == pre.permits - pile.len()
            &&& post.waiters@ == pre.waiters@
            &&& post.next_waiter_id == pre.next_waiter_id
        } else if pre.permits - pile.len() < opts.max_connections {
            &&& step is Establish
            &&& post.idle@.len() == 0
            &&& post.checked_out == pre.checked_out
            &&& post.establishing == pre.establishing + 1
            &&& post.permits == pre.permits - pile.len() + 1
            &&& post.waiters@ == pre.waiters@
            &&& post.next_waiter_id == pre.next_waiter_id
        } else {
            &&& step == (AcquireStep::Wait { waiter_id: pre.next_waiter_id })
            &&& post.idle@.len() == 0
            &&& post.checked_out == pre.checked_out
            &&& post.establishing == pre.establishing
            &&& post.permits == pre.permits - pile.len()
            &&& post.waiters@ == pre.waiters@.push(
                Waiter { waiter_id: pre.next_waiter_id, enqueued_at_ms: now_ms },
            )
            &&& post.next_waiter_id == pre.next_waiter_id + 1
        }
    }
}

/// The acquire transition for a newly arriving caller: once any waiter
/// stands in the queue, a newcomer may not overtake it, so the newcomer
/// enqueues behind; otherwise it proceeds as [`acquire_transition`].
pub open spec fn new_acquire_transition(
    pre: Pool,
    post: Pool,
    discarded: Seq<IdleEntry>,
    step: AcquireStep,
    now_ms: u64,
) -> bool {
    if !pre.closed && pre.waiters@.len() > 0 {
        &&& step == (AcquireStep::Wait { waiter_id: pre.next_waiter_id })
        &&& discarded == Seq::<IdleEntry>::empty()
        &&& same_config(pre, post)
        &&& post.permits == pre.permits
        &&& post.checked_out == pre.checked_out
        &&& post.establishing == pre.establishing
        &&& post.idle@ == pre.idle@
        &&& post.waiters@ == pre.waiters@.push(
            Waiter { waiter_id: pre.next_waiter_id, enqueued_at_ms: now_ms },
        )
        &&& post.next_conn_id == pre.next_conn_id
        &&& post.next_waiter_id == pre.next_waiter_id + 1
    } else {
        acquire_transition(pre, post, discarded, step, now_ms)
    }
}

/// The release transition: the `after_release` verdict (`keep`) and the
/// lifetime bound decide whether the connection survives; a surviving
/// connection goes to the longest waiter if one is pending, else to the
/// idle store; a closed connection frees its permit and, on an open
/// pool, wakes the longest waiter so the freed capacity is not stranded.
pub open spec fn release_transition(
    pre: Pool,
    post: Pool,
    conn: IdleEntry,
    keep: bool,
    now_ms: u64,
    act: ReleaseAction,
) -> bool {
    let refreshed = IdleEntry {
        conn_id: conn.conn_id,
        created_at_ms: conn.created_at_ms,
        last_idle_at_ms: now_ms,
    };
    &&& post.options == pre.options
    &&& post.connect_options.uri@ == pre.connect_options.uri@
    &&& post.closed == pre.closed
    &&& post.establishing == pre.establishing
    &&& post.next_conn_id == pre.next_conn_id
    &&& post.next_waiter_id == pre.next_waiter_id
    &&& if pre.closed {
        &&& act == (ReleaseAction::Close { woken: None })
        &&& post.permits == pre.permits - 1
        &&& post.checked_out == pre.checked_out - 1
        &&& post.idle@ == pre.idle@
        &&& post.waiters@ == pre.waiters@
    } else if !keep || is_stale(refreshed, pre.options, now_ms) {
        &&& act == (ReleaseAction::Close {
            woken: if pre.waiters@.len() > 0 {
                Some(pre.waiters@.first().waiter_id)
            } else {
                None
            },
        })
        &&& post.permits == pre.permits - 1
        &&& post.checked_out == pre.checked_out - 1
        &&& post.idle@ == pre.idle@
        &&& post.waiters@ == if pre.waiters@.len() > 0 {
            pre.waiters@.drop_first()
        } else {
            pre.waiters@
        }
    } else if pre.waiters@.len() > 0 {
        &&& act == (ReleaseAction::HandOff {
            waiter_id: pre.waiters@.first().waiter_id,
            conn: refreshed,
        })
        &&& post.permits == pre.permits
        &&& post.checked_out == pre.checked_out
        &&& post.idle@ == pre.idle@
        &&& post.waiters@ == pre.waiters@.drop_first()
    } else {
        &&& act is Idled
        &&& post.permits == pre.permits
        &&& post.checked_out == pre.checked_out - 1
        &&& post.idle@ == pre.idle@.push(refreshed)
        &&& post.waiters@ == pre.waiters@
    }
}

impl Pool {
    /// One acquire attempt by a caller that need not yield to the queue:
    /// used directly by woken waiters re-entering the protocol.
    ///
    /// A stale connection is never handed out: each one found is
    /// returned in `out.discarded` for the caller to close.
    #[verifier::loop_isolation(false)]
    pub fn retry_acquire(&mut self, now_ms: u64) -> (out: AcquireOutcome)
        requires
            old(self).wf(),
            old(self).next_waiter_id < u64::MAX,
        ensures
            final(self).wf(),
            acquire_transition(*old(self), *final(self), out.discarded@, out.step, now_ms),
            (out.step matches AcquireStep::Ready { conn } ==> !is_stale(
                conn,
                old(self).options,
                now_ms,
            )),
            (out.step matches AcquireStep::Test { conn } ==> !is_stale(
                conn,
                old(self).options,
                now_ms,
            )),
    {
        proof {
            lemma_acquire_scan(self.idle@, self.options, now_ms);
        }
        if self.closed {
            return AcquireOutcome { discarded: Vec::new(), step: AcquireStep::PoolClosed };
        }
        let mut discarded: Vec<IdleEntry> = Vec::new();
        let ghost s0 = self.idle@;
        let ghost opts = self.options;
        while self.idle.len() > 0
            invariant
                self.wf(),
                !self.closed,
                self.options == opts,
                self.connect_options.uri@ == old(self).connect_options.uri@,
                self.checked_out == old(self).checked_out,
                self.establishing == old(self).establishing,
                self.waiters@ == old(self).waiters@,
                self.next_conn_id == old(self).next_conn_id,
                self.next_waiter_id == old(self).next_waiter_id,
                self.permits == old(self).permits - discarded@.len(),
                discard_pile(s0, opts, now_ms) == discarded@ + discard_pile(
                    self.idle@,
                    opts,
                    now_ms,
                ),
                fresh_prefix(s0, opts, now_ms) == fresh_prefix(self.idle@, opts, now_ms),
            decreases self.idle@.len(),
        {
            let ghost cur = self.idle@;
            let ghost d0 = discarded@;
            let e = self.idle.pop_most_recent().unwrap();
            if stale_entry(&e, &self.options, now_ms) {
                self.permits = self.permits - 1;
                discarded.push(e);
                proof {
                    assert(discard_pile(cur, opts, now_ms) == seq![e] + discard_pile(
                        self.idle@,
                        opts,
                        now_ms,
                    ));
                    assert(discarded@ + discard_pile(self.idle@, opts, now_ms) =~= d0
                        + discard_pile(cur, opts, now_ms));
                }
            } else {
                self.checked_out = self.checked_out + 1;
                proof {
                    assert(fresh_prefix(cur, opts, now_ms) == cur);
                    assert(discarded@ + discard_pile(cur, opts, now_ms) =~= discarded@);
                }
                let step = if self.options.test_before_acquire || self.options.has_before_acquire {
                    AcquireStep::Test { conn: e }
                } else {
                    AcquireStep::Ready { conn: e }
                };
                return AcquireOutcome { discarded, step };
            }
        }
        proof {
            assert(discarded@ + discard_pile(self.idle@, opts, now_ms) =~= discarded@);
            assert(fresh_prefix(self.idle@, opts, now_ms) =~= self.idle@);
        }
        if self.permits < self.options.max_connections {
            self.permits = self.permits + 1;
            self.establishing = self.establishing + 1;
            return AcquireOutcome { discarded, step: AcquireStep::Establish };
        }
        let w = Waiter { waiter_id: self.next_waiter_id, enqueued_at_ms: now_ms };
        self.next_waiter_id = self.next_waiter_id + 1;
        self.waiters.enqueue(w);
        AcquireOutcome { discarded, step: AcquireStep::Wait { waiter_id: w.waiter_id } }
    }

    /// One acquire attempt by a newly arriving caller. Fairness: once a
    /// waiter stands in the queue, a newcomer enqueues behind it rather
    /// than take an idle connection or a free permit ahead of it.
    pub fn try_acquire(&mut self, now_ms: u64) -> (out: AcquireOutcome)
        requires
            old(self).wf(),
            old(self).next_waiter_id < u64::MAX,
        ensures
            final(self).wf(),
            new_acquire_transition(*old(self), *final(self), out.discarded@, out.step, now_ms),
            (out.step matches AcquireStep::Ready { conn } ==> !is_stale(
                conn,
                old(self).options,
                now_ms,
            )),
            (out.step matches AcquireStep::Test { conn } ==> !is_stale(
                conn,
                old(self).options,
                now_ms,
            )),
    {
        if !self.closed && self.waiters.len() > 0 {
            let w = Waiter { waiter_id: self.next_waiter_id, enqueued_at_ms: now_ms };
            self.next_waiter_id = self.next_waiter_id + 1;
            self.waiters.enqueue(w);
            return AcquireOutcome {
                discarded: Vec::new(),
                step: AcquireStep::Wait { waiter_id: w.waiter_id },
            };
        }
        self.retry_acquire(now_ms)
    }

    /// Report the verdict on a [`AcquireStep::Test`] candidate: the ping
    /// and the `before_acquire` hook passed (`ok`), or not. A rejected
    /// connection is discarded — never handed to the caller — its permit
    /// is released, and the acquire immediately retries, so the discard
    /// is replaced rather than merely dropped.
    pub fn on_test_result(&mut self, conn: IdleEntry, ok: bool, now_ms: u64) -> (out:
        AcquireOutcome)
        requires
            old(self).wf(),
            old(self).checked_out >= 1,
            old(self).next_waiter_id < u64::MAX,
        ensures
            final(self).wf(),
            ok ==> pool_unchanged(*old(self), *final(self)) && out.step == (AcquireStep::Ready {
                conn,
            }) && out.discarded@ == Seq::<IdleEntry>::empty(),
            !ok ==> {
                &&& out.discarded@.len() >= 1
                &&& out.discarded@.first() == conn
                &&& acquire_transition(
                    after_test_discard(*old(self)),
                    *final(self),
                    out.discarded@.drop_first(),
                    out.step,
                    now_ms,
                )
            },
            !ok ==> (out.step matches AcquireStep::Ready { conn: c } ==> !is_stale(
                c,
                old(self).options,
                now_ms,
            )),
            !ok ==> (out.step matches AcquireStep::Test { conn: c } ==> !is_stale(
                c,
                old(self).options,
                now_ms,
            )),
    {
        if ok {
            return AcquireOutcome { discarded: Vec::new(), step: AcquireStep::Ready { conn } };
        }
        self.checked_out = self.checked_out - 1;
        self.permits = self.permits - 1;
        let ghost mid = *self;
        let mut out = self.retry_acquire(now_ms);
        let ghost core_disc = out.discarded@;
        out.discarded.insert(0, conn);
        proof {
            assert(mid == after_test_discard(*old(self)));
            assert(out.discarded@.first() == conn);
            assert(out.discarded@.drop_first() =~= core_disc);
        }
        out
    }

    /// Report the outcome of an establishment begun under
    /// [`AcquireStep::Establish`]: on success the new connection is
    /// checked out to the caller under a fresh identity; on any failure
    /// (connector error, connect timeout, or a failed `after_connect`
    /// hook) the reserved permit is released, so a later acquire may try
    /// again.
    pub fn on_connect_result(&mut self, ok: bool, now_ms: u64) -> (granted: Option<IdleEntry>)
        requires
            old(self).wf(),
            old(self).establishing >= 1,
            ok ==> old(self).next_conn_id < u64::MAX,
        ensures
            final(self).wf(),
            same_config(*old(self), *final(self)),
            final(self).idle@ == old(self).idle@,
            final(self).waiters@ == old(self).waiters@,
            final(self).next_waiter_id == old(self).next_waiter_id,
            final(self).establishing == old(self).establishing - 1,
            ok ==> granted == Some(
                IdleEntry {
                    conn_id: old(self).next_conn_id,
                    created_at_ms: now_ms,
                    last_idle_at_ms: now_ms,
                },
            ) && final(self).next_conn_id == old(self).next_conn_id + 1 && final(self).checked_out
                == old(self).checked_out + 1 && final(self).permits == old(self).permits,
            !ok ==> granted is None && final(self).next_conn_id == old(self).next_conn_id
                && final(self).checked_out == old(self).checked_out && final(self).permits == old(
                self,
            ).permits - 1,
    {
        self.establishing = self.establishing - 1;
        if ok {
            let conn = IdleEntry {
                conn_id: self.next_conn_id,
                created_at_ms: now_ms,
                last_idle_at_ms: now_ms,
            };
            self.next_conn_id = self.next_conn_id + 1;
            self.checked_out = self.checked_out + 1;
            Some(conn)
        } else {
            self.permits = self.permits - 1;
            None
        }
    }

    /// Return a checked-out connection. `keep` carries the
    /// `after_release` outcome: `true` when no hook is configured or it accepted
    /// the connection; `false` — or a hook that failed — closes it
    /// instead, releasing its permit and never re-idling it.
    pub fn release(&mut self, conn: IdleEntry, keep: bool, now_ms: u64) -> (act: ReleaseAction)
        requires
            old(self).wf(),
            old(self).checked_out >= 1,
        ensures
            final(self).wf(),
            release_transition(*old(self), *final(self), conn, keep, now_ms, act),
            !keep ==> act is Close && final(self).permits == old(self).permits - 1
                && final(self).idle@ == old(self).idle@,
            (act matches ReleaseAction::HandOff { conn: c, .. } ==> !is_stale(
                c,
                old(self).options,
                now_ms,
            )),
    {
        let refreshed = IdleEntry {
            conn_id: conn.conn_id,
            created_at_ms: conn.created_at_ms,
            last_idle_at_ms: now_ms,
        };
        if self.closed {
            self.checked_out = self.checked_out - 1;
            self.permits = self.permits - 1;
            return ReleaseAction::Close { woken: None };
        }
        if !keep || stale_entry(&refreshed, &self.options, now_ms) {
            self.checked_out = self.checked_out - 1;
            self.permits = self.permits - 1;
            let woken = match self.waiters.pop_front() {
                Some(w) => {
                    proof {
                        lemma_drop_first_ordered(old(self).waiters@, self.next_waiter_id);
                    }
                    Some(w.waiter_id)
                },
                None => None,
            };
            return ReleaseAction::Close { woken };
        }
        match self.waiters.pop_front() {
            Some(w) => {
                proof {
                    lemma_drop_first_ordered(old(self).waiters@, self.next_waiter_id);
                }
                ReleaseAction::HandOff { waiter_id: w.waiter_id, conn: refreshed }
            },
            None => {
                self.checked_out = self.checked_out - 1;
                self.idle.push(refreshed);
                ReleaseAction::Idled
            },
        }
    }

    /// Leave the waiter queue without being woken — the path taken when
    /// an acquire is cancelled or its deadline expires. Nobody else is
    /// woken, no permit moves, and the other waiters keep their order.
    pub fn cancel_waiter(&mut self, waiter_id: u64) -> (found: bool)
        requires
            old(self).wf(),
        ensures
            final(self).wf(),
            found == crate::wait_list::has_waiter(old(self).waiters@, waiter_id),
            final(self).waiters@ == crate::wait_list::without_waiter(
                old(self).waiters@,
                waiter_id,
            ),
            same_config(*old(self), *final(self)),
            final(self).permits == old(self).permits,
            final(self).checked_out == old(self).checked_out,
            final(self).establishing == old(self).establishing,
            final(self).idle@ == old(self).idle@,
            final(self).next_conn_id == old(self).next_conn_id,
            final(self).next_waiter_id == old(self).next_waiter_id,
    {
        let found = self.waiters.remove(waiter_id);
        proof {
            crate::wait_list::lemma_without_waiter_props(old(self).waiters@, waiter_id);
            assert forall|i: int| 0 <= i < self.waiters@.len() implies (
            #[trigger] self.waiters@[i]).waiter_id < self.next_waiter_id by {
                assert(self.waiters@.contains(self.waiters@[i]));
                assert(old(self).waiters@.contains(self.waiters@[i]));
                let k = choose|k: int|
                    0 <= k < old(self).waiters@.len() && old(self).waiters@[k] == self.waiters@[i];
                assert(old(self).waiters@[k].waiter_id < old(self).next_waiter_id);
            }
        }
        found
    }
}

/// The pool state right after a vetted candidate was rejected and
/// discarded: one fewer checked out, one permit released.
pub open spec fn after_test_discard(pre: Pool) -> Pool {
    Pool { checked_out: (pre.checked_out - 1) as u32, permits: (pre.permits - 1) as u32, ..pre }
}

/// Dropping the queue's first waiter keeps the remaining tickets in
/// increasing order and below the same bound.
pub(crate) proof fn lemma_drop_first_ordered(s: Seq<Waiter>, bound: u64)
    requires
        s.len() > 0,
        waiter_ids_increasing(s),
        forall|i: int| 0 <= i < s.len() ==> (#[trigger] s[i]).waiter_id < bound,
    ensures
        waiter_ids_increasing(s.drop_first()),
        forall|i: int| 0 <= i < s.drop_first().len() ==> (#[trigger] s.drop_first()[i]).waiter_id
            < bound,
{
    assert forall|i: int, j: int| 0 <= i < j < s.drop_first().len() implies (
    #[trigger] s.drop_first()[i]).waiter_id < (#[trigger] s.drop_first()[j]).waiter_id by {
        assert(s.drop_first()[i] == s[i + 1]);
        assert(s.drop_first()[j] == s[j + 1]);
    }
    assert forall|i: int| 0 <= i < s.drop_first().len() implies (
    #[trigger] s.drop_first()[i]).waiter_id < bound by {
        assert(s.drop_first()[i] == s[i + 1]);
    }
}

/// Capacity law: in every well-formed pool state the live connections —
/// idle, checked out, and establishing — are exactly the permit count,
/// which never exceeds `max_connections`. Every transition of the engine
/// both requires and re-establishes `wf`, so by induction the bound
/// holds after any sequence of acquires and releases.
pub proof fn lemma_capacity_bound(p: Pool)
    requires
        p.wf(),
    ensures
        p.idle@.len() + p.checked_out + p.establishing == p.permits,
        p.permits <= p.options.max_connections,
{
}

/// Fairness law: waiters stand in the queue in strictly increasing
/// ticket (arrival) order, and every wake — a hand-off or a close that
/// frees capacity — takes the queue's first entry. So under any release
/// interleaving, a waiter that enqueued earlier is woken earlier.
pub proof fn lemma_waiters_fifo(p: Pool, i: int, j: int)
    requires
        p.wf(),
        0 <= i < j < p.waiters@.len(),
    ensures
        p.waiters@[i].waiter_id < p.waiters@[j].waiter_id,
{
}

} // verus!
