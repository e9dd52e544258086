use crate::idle::{lemma_split_by_staleness, stale_only, IdleEntry};
use crate::options::PoolOptions;
use crate::pool::{lemma_drop_first_ordered, same_config, Pool};
use crate::wait_list::Waiter;
use vstd::prelude::*;

verus! {

/// Interval between maintenance passes when neither an idle timeout nor
/// a maximum lifetime is configured.
pub const DEFAULT_MAINTENANCE_INTERVAL_MS: u64 = 30_000;

/// Floor on the maintenance interval, so that very short timeouts do not
/// turn the maintenance loop into a busy loop.
pub const MIN_MAINTENANCE_INTERVAL_MS: u64 = 500;

/// The interval between maintenance passes: the smaller of the
/// configured idle timeout and maximum lifetime, floored at
/// [`MIN_MAINTENANCE_INTERVAL_MS`].
pub open spec fn spec_maintenance_interval(opts: PoolOptions) -> u64 {
    let base = match (opts.idle_timeout_ms, opts.max_lifetime_ms) {
        (Some(t), Some(l)) => if t <= l {
            t
        } else {
            l
        },
        (Some(t), None) => t,
        (None, Some(l)) => l,
        (None, None) => DEFAULT_MAINTENANCE_INTERVAL_MS,
    };
    if base < MIN_MAINTENANCE_INTERVAL_MS {
        MIN_MAINTENANCE_INTERVAL_MS
    } else {
        base
    }
}

/// How many connections an eager build establishes before it returns:
/// the configured minimum, or a single connection when no minimum is
/// configured.
pub open spec fn spec_eager_target(opts: PoolOptions) -> u32 {
    if opts.min_connections == 0 {
        1u32
    } else {
        opts.min_connections
    }
}

impl PoolOptions {
    /// Interval between maintenance passes; see
    /// [`spec_maintenance_interval`].
    pub fn maintenance_interval_ms(&self) -> (r: u64)
        ensures
            r == spec_maintenance_interval(*self),
    {
        let base = match (self.idle_timeout_ms, self.max_lifetime_ms) {
            (Some(t), Some(l)) => if t <= l {
                t
            } else {
                l
            },
            (Some(t), None) => t,
            (None, Some(l)) => l,
            (None, None) => DEFAULT_MAINTENANCE_INTERVAL_MS,
        };
        if base < MIN_MAINTENANCE_INTERVAL_MS {
            MIN_MAINTENANCE_INTERVAL_MS
        } else {
            base
        }
    }

    /// How many connections an eager build establishes; see
    /// [`spec_eager_target`].
    pub fn eager_connect_target(&self) -> (r: u32)
        ensures
            r == spec_eager_target(*self),
    {
        if self.min_connections == 0 {
            1
        } else {
            self.min_connections
        }
    }
}

/// What one maintenance pass asks of the maintenance process: close
/// these evicted connections, then establish this many new ones
/// (reporting each outcome to [`Pool::on_maintain_connect`]).
#[derive(Debug)]
pub struct MaintainPlan {
    /// Idle connections evicted for being past their idle or lifetime
    /// bound; close them. Their permits are already released.
    pub to_close: Vec<IdleEntry>,
    /// Number of establishments to begin; their permits are reserved.
    pub establish: u32,
}

/// What a shutdown asks of the caller: close the drained idle
/// connections and wake every pending waiter (each will find the pool
/// closed and give up).
#[derive(Debug)]
pub struct ClosePlan {
    /// Every formerly idle connection; close them.
    pub to_close: Vec<IdleEntry>,
    /// Every pending waiter ticket, in queue order; wake them all.
    pub to_wake: Vec<u64>,
}

impl Pool {
    /// One maintenance pass at instant `now_ms`: evict every idle
    /// connection past its idle or lifetime bound (releasing its
    /// permit), then reserve permits to bring the live-connection count
    /// back up to `min_connections`. Establishment failures are reported
    /// through [`Pool::on_maintain_connect`] and simply retried on the
    /// next pass. The maintenance process stops before the pool closes,
    /// so this is never called on a closed pool.
    pub fn maintain(&mut self, now_ms: u64) -> (plan: MaintainPlan)
        requires
            old(self).wf(),
            !old(self).closed,
        ensures
            final(self).wf(),
            same_config(*old(self), *final(self)),
            final(self).checked_out == old(self).checked_out,
            final(self).waiters@ == old(self).waiters@,
            final(self).next_conn_id == old(self).next_conn_id,
            final(self).next_waiter_id == old(self).next_waiter_id,
            final(self).idle@ == crate::idle::fresh_only(
                old(self).idle@,
                old(self).options,
                now_ms,
            ),
            plan.to_close@ == stale_only(old(self).idle@, old(self).options, now_ms),
            plan.establish == spec_top_up(
                old(self).permits - stale_only(old(self).idle@, old(self).options, now_ms).len(),
                old(self).options,
            ),
            final(self).permits == old(self).permits - stale_only(
                old(self).idle@,
                old(self).options,
                now_ms,
            ).len() + plan.establish,
            final(self).establishing == old(self).establishing + plan.establish,
    {
        proof {
            lemma_split_by_staleness(self.idle@, self.options, now_ms);
        }
        let evicted = self.idle.evict_expired(&self.options, now_ms);
        let freed = evicted.len();
        self.permits = self.permits - freed as u32;
        let deficit: u32 = if self.permits < self.options.min_connections {
            self.options.min_connections - self.permits
        } else {
            0
        };
        self.permits = self.permits + deficit;
        self.establishing = self.establishing + deficit;
        MaintainPlan { to_close: evicted, establish: deficit }
    }

    /// Report the outcome of one establishment begun by [`Pool::maintain`]
    /// or [`Pool::begin_eager_connect`]. A new connection is parked in
    /// the idle store under a fresh identity; if a waiter is pending,
    /// wake the longest-waiting one so it can claim the connection. On
    /// failure the reserved permit is released; the next maintenance
    /// pass will try again.
    pub fn on_maintain_connect(&mut self, ok: bool, now_ms: u64) -> (woken: Option<u64>)
        requires
            old(self).wf(),
            !old(self).closed,
            old(self).establishing >= 1,
            ok ==> old(self).next_conn_id < u64::MAX,
        ensures
            final(self).wf(),
            same_config(*old(self), *final(self)),
            final(self).checked_out == old(self).checked_out,
            final(self).next_waiter_id == old(self).next_waiter_id,
            final(self).establishing == old(self).establishing - 1,
            ok ==> {
                &&& final(self).idle@ == old(self).idle@.push(
                    IdleEntry {
                        conn_id: old(self).next_conn_id,
                        created_at_ms: now_ms,
                        last_idle_at_ms: now_ms,
                    },
                )
                &&& final(self).permits == old(self).permits
                &&& final(self).next_conn_id == old(self).next_conn_id + 1
                &&& woken == (if old(self).waiters@.len() > 0 {
                    Some(old(self).waiters@.first().waiter_id)
                } else {
                    None::<u64>
                })
                &&& final(self).waiters@ == (if old(self).waiters@.len() > 0 {
                    old(self).waiters@.drop_first()
                } else {
                    old(self).waiters@
                })
            },
            !ok ==> {
                &&& final(self).idle@ == old(self).idle@
                &&& final(self).permits == old(self).permits - 1
                &&& final(self).next_conn_id == old(self).next_conn_id
                &&& final(self).waiters@ == old(self).waiters@
                &&& woken is None
            },
    {
        self.establishing = self.establishing - 1;
        if ok {
            let conn = IdleEntry {
                conn_id: self.next_conn_id,
                created_at_ms: now_ms,
                last_idle_at_ms: now_ms,
            };
            self.next_conn_id = self.next_conn_id + 1;
            self.idle.push(conn);
            match self.waiters.pop_front() {
                Some(w) => {
                    proof {
                        lemma_drop_first_ordered(old(self).waiters@, self.next_waiter_id);
                    }
                    Some(w.waiter_id)
                },
                None => None,
            }
        } else {
            self.permits = self.permits - 1;
            None
        }
    }

    /// Reserve permits for an eager build: bring the live-connection
    /// count up to the eager target (`min_connections`, or one), and
    /// return how many establishments to begin. Report each outcome to
    /// [`Pool::on_maintain_connect`]; an eager build that sees any
    /// failure tears the pool down instead of returning it.
    pub fn begin_eager_connect(&mut self) -> (n: u32)
        requires
            old(self).wf(),
            !old(self).closed,
        ensures
            final(self).wf(),
            same_config(*old(self), *final(self)),
            final(self).checked_out == old(self).checked_out,
            final(self).idle@ == old(self).idle@,
            final(self).waiters@ == old(self).waiters@,
            final(self).next_conn_id == old(self).next_conn_id,
            final(self).next_waiter_id == old(self).next_waiter_id,
            n == (if old(self).permits < spec_eager_target(old(self).options) {
                spec_eager_target(old(self).options) - old(self).permits
            } else {
                0int
            }),
            final(self).permits == old(self).permits + n,
            final(self).establishing == old(self).establishing + n,
    {
        let target = self.options.eager_connect_target();
        let n: u32 = if self.permits < target {
            target - self.permits
        } else {
            0
        };
        self.permits = self.permits + n;
        self.establishing = self.establishing + n;
        n
    }

    /// Shut the pool down: mark it closed, drain the idle store
    /// (releasing those permits), and flush the waiter queue. The caller
    /// closes every drained connection and wakes every flushed waiter;
    /// connections still checked out are closed by their eventual
    /// release rather than re-idled.
    pub fn close_pool(&mut self) -> (plan: ClosePlan)
        requires
            old(self).wf(),
        ensures
            final(self).wf(),
            final(self).closed,
            final(self).options == old(self).options,
            final(self).connect_options.uri@ == old(self).connect_options.uri@,
            final(self).idle@.len() == 0,
            final(self).waiters@.len() == 0,
            final(self).checked_out == old(self).checked_out,
            final(self).establishing == old(self).establishing,
            final(self).permits == old(self).permits - old(self).idle@.len(),
            final(self).next_conn_id == old(self).next_conn_id,
            final(self).next_waiter_id == old(self).next_waiter_id,
            plan.to_close@ == old(self).idle@,
            plan.to_wake@ == old(self).waiters@.map_values(|w: Waiter| w.waiter_id),
    {
        self.closed = true;
        let to_close = self.idle.take_all();
        let freed = to_close.len();
        self.permits = self.permits - freed as u32;
        let to_wake = self.waiters.drain_ids();
        ClosePlan { to_close, to_wake }
    }
}

/// How many establishments a maintenance pass begins, given the permits
/// that remain after eviction: enough to reach `min_connections`.
pub open spec fn spec_top_up(permits_after_evict: int, opts: PoolOptions) -> int {
    if permits_after_evict < opts.min_connections {
        opts.min_connections - permits_after_evict
    } else {
        0
    }
}

/// Round-trip law of maintenance: a pass brings the live-connection
/// count up to exactly `min_connections` when it was below it, and adds
/// nothing when it was not. So on a fresh pool, one pass whose
/// establishments all succeed yields exactly `min_connections` idle
/// connections — no more, no fewer.
pub proof fn lemma_top_up_reaches_minimum(permits_after_evict: int, opts: PoolOptions)
    requires
        0 <= permits_after_evict,
    ensures
        permits_after_evict + spec_top_up(permits_after_evict, opts) == if permits_after_evict
            < opts.min_connections {
            opts.min_connections as int
        } else {
            permits_after_evict
        },
{
}

} // verus!
