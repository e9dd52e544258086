use crate::errors::PoolError;
use crate::pool::Pool;
use vstd::prelude::*;

verus! {

/// Immutable-after-build configuration of a pool: capacity bounds,
/// timeouts, and which lifecycle hooks are configured.
///
/// All durations are in milliseconds. The hook callbacks themselves are
/// held by the embedding runtime, which runs them and reports each
/// outcome to the engine; the engine only needs to know whether a hook is
/// configured at all, so the options record that as a flag.
pub struct PoolOptions {
    /// Number of connections the maintenance step keeps established.
    pub min_connections: u32,
    /// Hard bound on live connections (idle + checked out + establishing).
    pub max_connections: u32,
    /// Time budget for establishing one new connection.
    pub connect_timeout_ms: u64,
    /// A connection older than this is closed rather than reused.
    pub max_lifetime_ms: Option<u64>,
    /// A connection idle longer than this is closed rather than reused.
    pub idle_timeout_ms: Option<u64>,
    /// Whether to ping a connection before handing it to an acquirer.
    pub test_before_acquire: bool,
    /// Whether an `after_release` hook is configured.
    pub has_after_release: bool,
    /// Whether an `after_connect` hook is configured.
    pub has_after_connect: bool,
    /// Whether a `before_acquire` hook is configured.
    pub has_before_acquire: bool,
}

impl PoolOptions {
    /// The invariant a built pool's options satisfy: at least one
    /// connection may exist, and the maintained minimum fits under the
    /// maximum.
    pub open spec fn wf(self) -> bool {
        &&& self.max_connections >= 1
        &&& self.min_connections <= self.max_connections
    }

    /// Whether an acquired idle connection must be vetted (by a ping or a
    /// `before_acquire` hook) before it is handed out.
    pub open spec fn needs_test(self) -> bool {
        self.test_before_acquire || self.has_before_acquire
    }

    /// Create options with the default values: no maintained minimum, at
    /// most ten connections, a thirty-second connect timeout, a
    /// ten-minute idle timeout, a thirty-minute lifetime, and a liveness
    /// test before every acquire.
    pub fn new() -> (r: PoolOptions)
        ensures
            r == PoolOptions::spec_default(),
    {
        PoolOptions {
            min_connections: 0,
            max_connections: 10,
            connect_timeout_ms: 30_000,
            max_lifetime_ms: Some(1_800_000),
            idle_timeout_ms: Some(600_000),
            test_before_acquire: true,
            has_after_release: false,
            has_after_connect: false,
            has_before_acquire: false,
        }
    }

    /// The default configuration as a value.
    pub open spec fn spec_default() -> PoolOptions {
        PoolOptions {
            min_connections: 0,
            max_connections: 10,
            connect_timeout_ms: 30_000,
            max_lifetime_ms: Some(1_800_000),
            idle_timeout_ms: Some(600_000),
            test_before_acquire: true,
            has_after_release: false,
            has_after_connect: false,
            has_before_acquire: false,
        }
    }

    /// Set the minimum number of connections the pool maintains.
    pub fn min_connections(self, min: u32) -> (r: PoolOptions)
        ensures
            r == (PoolOptions { min_connections: min, ..self }),
    {
        PoolOptions { min_connections: min, ..self }
    }

    /// Set the maximum number of connections the pool may hold. A zero is
    /// accepted here and rejected when the pool is built.
    pub fn max_connections(self, max: u32) -> (r: PoolOptions)
        ensures
            r == (PoolOptions { max_connections: max, ..self }),
    {
        PoolOptions { max_connections: max, ..self }
    }

    /// Set the time budget, in milliseconds, for establishing one
    /// connection.
    pub fn connect_timeout(self, timeout_ms: u64) -> (r: PoolOptions)
        ensures
            r == (PoolOptions { connect_timeout_ms: timeout_ms, ..self }),
    {
        PoolOptions { connect_timeout_ms: timeout_ms, ..self }
    }

    /// Set the maximum lifetime, in milliseconds, of an individual
    /// connection; `None` lets connections live until the idle timeout
    /// reaps them.
    pub fn max_lifetime(self, lifetime_ms: Option<u64>) -> (r: PoolOptions)
        ensures
            r == (PoolOptions { max_lifetime_ms: lifetime_ms, ..self }),
    {
        PoolOptions { max_lifetime_ms: lifetime_ms, ..self }
    }

    /// Set the maximum idle duration, in milliseconds, of an individual
    /// connection; `None` keeps idle connections indefinitely.
    pub fn idle_timeout(self, timeout_ms: Option<u64>) -> (r: PoolOptions)
        ensures
            r == (PoolOptions { idle_timeout_ms: timeout_ms, ..self }),
    {
        PoolOptions { idle_timeout_ms: timeout_ms, ..self }
    }

    /// Choose whether a connection's health is verified by a ping before
    /// it is returned from an acquire.
    pub fn test_before_acquire(self, test: bool) -> (r: PoolOptions)
        ensures
            r == (PoolOptions { test_before_acquire: test, ..self }),
    {
        PoolOptions { test_before_acquire: test, ..self }
    }

    /// Record that an `after_release` hook is configured. The callback is
    /// held and run by the embedding runtime, which reports its verdict
    /// to [`crate::Pool::release`].
    pub fn after_release(self) -> (r: PoolOptions)
        ensures
            r == (PoolOptions { has_after_release: true, ..self }),
    {
        PoolOptions { has_after_release: true, ..self }
    }

    /// Record that an `after_connect` hook is configured. The callback is
    /// run by the embedding runtime after each establishment; a failure
    /// is reported as a failed establishment.
    pub fn after_connect(self) -> (r: PoolOptions)
        ensures
            r == (PoolOptions { has_after_connect: true, ..self }),
    {
        PoolOptions { has_after_connect: true, ..self }
    }

    /// Record that a `before_acquire` hook is configured. The callback is
    /// run by the embedding runtime on every candidate connection; its
    /// verdict is reported to [`crate::Pool::on_test_result`].
    pub fn before_acquire(self) -> (r: PoolOptions)
        ensures
            r == (PoolOptions { has_before_acquire: true, ..self }),
    {
        PoolOptions { has_before_acquire: true, ..self }
    }

    /// The options as a built pool holds them: a minimum above the
    /// maximum is clamped down to it, establishing the configured-pool
    /// invariant `min_connections <= max_connections`.
    pub open spec fn normalized(self) -> PoolOptions {
        PoolOptions {
            min_connections: if self.min_connections <= self.max_connections {
                self.min_connections
            } else {
                self.max_connections
            },
            ..self
        }
    }

    /// Create a pool from this configuration and a connect URI, without
    /// establishing any connection. Fails exactly when the URI is
    /// rejected or `max_connections` is zero.
    pub fn build(self, uri: &str) -> (r: Result<Pool, PoolError>)
        ensures
            r is Ok <==> (self.max_connections >= 1 && uri@.len() > 0),
            r matches Err(e) ==> e == PoolError::Config,
            r matches Ok(p) ==> {
                &&& p.wf()
                &&& p.options == self.normalized()
                &&& p.connect_options.uri@ == uri@
                &&& p.permits == 0 && p.checked_out == 0 && p.establishing == 0
                &&& p.idle@.len() == 0 && p.waiters@.len() == 0
                &&& !p.closed
            },
    {
        if self.max_connections == 0 {
            return Err(PoolError::Config);
        }
        match ConnectOptions::from_uri(uri) {
            Err(e) => Err(e),
            Ok(o) => Ok(self.build_with(o)),
        }
    }

    /// Create a pool from this configuration and already-validated
    /// connector options, without establishing any connection. The one
    /// configuration a pool cannot be built from is a zero
    /// `max_connections`, which the caller rules out beforehand (a
    /// URI-taking build surfaces it as a configuration error).
    pub fn build_with(self, options: ConnectOptions) -> (p: Pool)
        requires
            self.max_connections >= 1,
        ensures
            p.wf(),
            p.options == self.normalized(),
            p.connect_options.uri@ == options.uri@,
            p.permits == 0 && p.checked_out == 0 && p.establishing == 0,
            p.idle@.len() == 0 && p.waiters@.len() == 0,
            !p.closed,
    {
        let min = if self.min_connections <= self.max_connections {
            self.min_connections
        } else {
            self.max_connections
        };
        let normalized = PoolOptions { min_connections: min, ..self };
        Pool::start(normalized, options)
    }
}

impl Default for PoolOptions {
    /// Same values as [`PoolOptions::new`].
    fn default() -> (r: PoolOptions)
        ensures
            r == PoolOptions::spec_default(),
    {
        PoolOptions::new()
    }
}

/// Connector configuration: the connect URI, carried opaquely for the
/// connector. The pool validates only its structure; interpreting it is
/// the connector's business.
pub struct ConnectOptions {
    /// The connect URI as given.
    pub uri: String,
}

impl ConnectOptions {
    /// Parse a connect URI. The pool itself demands only that the URI is
    /// non-empty; everything further is left to the driver's connector.
    pub fn from_uri(uri: &str) -> (r: Result<ConnectOptions, PoolError>)
        ensures
            r is Ok <==> uri@.len() > 0,
            r matches Ok(o) ==> o.uri@ == uri@,
            r matches Err(e) ==> e == PoolError::Config,
    {
        if uri.is_empty() {
            Err(PoolError::Config)
        } else {
            Ok(ConnectOptions { uri: uri.to_owned() })
        }
    }
}

} // verus!
