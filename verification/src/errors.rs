use vstd::prelude::*;

verus! {

/// The error taxonomy of the pool.
///
/// `Config` is fatal and surfaced when the pool is built; the others are
/// surfaced only to the single `acquire` call that triggered them and do
/// not poison the pool.
#[derive(Clone, Copy, Debug, PartialEq, Eq, Structural)]
pub enum PoolError {
    /// Malformed connect URI, or an invalid configuration such as a zero
    /// `max_connections`; reported when the pool is built.
    Config,
    /// The connector failed, or `connect_timeout` elapsed, while a new
    /// connection was being established.
    Connect,
    /// An `acquire` call waited for a free connection past its deadline.
    AcquireTimeout,
    /// A `before_acquire` or `after_connect` hook reported failure.
    Hook,
}

impl PoolError {
    /// The error surfaced by an `acquire` whose establishment attempt
    /// failed: a hook failure is reported as such, any connector failure
    /// (including a connect timeout) as a connect error.
    pub fn from_establishment(hook_failed: bool) -> (r: PoolError)
        ensures
            r == if hook_failed {
                PoolError::Hook
            } else {
                PoolError::Connect
            },
    {
        if hook_failed {
            PoolError::Hook
        } else {
            PoolError::Connect
        }
    }
}

} // verus!
