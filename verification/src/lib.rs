//! A verified connection-pool engine for stateful network resources.
//!
//! The pool manages a bounded set of long-lived connections: a permit count
//! gates admission, an idle store keeps established but unborrowed
//! connections ordered by recency, a FIFO waiter queue orders callers that
//! arrive while the pool is at capacity, and a maintenance step evicts
//! connections past their idle or lifetime bound and tops the pool up to a
//! configured minimum.
//!
//! The engine is expressed as atomic transitions on the pool state. Work
//! that can block or suspend — establishing a connection, pinging it,
//! running a user hook, sleeping — is performed by the embedding runtime,
//! which reports each outcome back to the engine through a dedicated
//! transition. Every transition preserves the pool's well-formedness, so
//! the capacity bound and the waiter ordering hold across any sequence of
//! operations.

mod errors;
mod idle;
mod maintenance;
mod options;
mod pool;
mod wait_list;

pub use errors::PoolError;
pub use idle::{
    discard_pile, fresh_only, fresh_prefix, is_stale, lemma_acquire_scan,
    lemma_split_by_staleness, stale_entry, stale_only, IdleEntry, IdleStore,
};
pub use maintenance::{
    lemma_top_up_reaches_minimum, spec_eager_target, spec_maintenance_interval, spec_top_up,
    ClosePlan, MaintainPlan, DEFAULT_MAINTENANCE_INTERVAL_MS, MIN_MAINTENANCE_INTERVAL_MS,
};
pub use options::{ConnectOptions, PoolOptions};
pub use pool::{
    acquire_transition, after_test_discard, lemma_capacity_bound, lemma_waiters_fifo,
    new_acquire_transition, pool_unchanged, release_transition, same_config, AcquireOutcome,
    AcquireStep, Pool, ReleaseAction,
};
pub use wait_list::{
    has_waiter, lemma_without_waiter_props, waiter_ids_increasing, without_waiter, WaitList,
    Waiter,
};

use vstd::prelude::*;

verus! {

/// Marker for the MySQL driver: the pool itself is driver-agnostic and
/// treats connections opaquely, so the driver type carries no state.
#[derive(Debug, Clone, Copy)]
pub struct MySql;

} // verus!
