use sqlx_pool::{PoolError, PoolOptions};

#[test]
fn defaults_match_documented_values() {
    let o = PoolOptions::new();
    assert_eq!(o.min_connections, 0);
    assert_eq!(o.max_connections, 10);
    assert_eq!(o.connect_timeout_ms, 30_000);
    assert_eq!(o.idle_timeout_ms, Some(600_000));
    assert_eq!(o.max_lifetime_ms, Some(1_800_000));
    assert!(o.test_before_acquire);
    assert!(!o.has_after_release);
    assert!(!o.has_after_connect);
    assert!(!o.has_before_acquire);
}

#[test]
fn default_trait_matches_new() {
    let d = PoolOptions::default();
    assert_eq!(d.max_connections, 10);
    assert_eq!(d.min_connections, 0);
    assert!(d.test_before_acquire);
}

#[test]
fn fluent_setters_compose() {
    let o = PoolOptions::new()
        .min_connections(2)
        .max_connections(7)
        .connect_timeout(1_000)
        .idle_timeout(Some(50))
        .max_lifetime(None)
        .test_before_acquire(false)
        .after_release()
        .after_connect()
        .before_acquire();
    assert_eq!(o.min_connections, 2);
    assert_eq!(o.max_connections, 7);
    assert_eq!(o.connect_timeout_ms, 1_000);
    assert_eq!(o.idle_timeout_ms, Some(50));
    assert_eq!(o.max_lifetime_ms, None);
    assert!(!o.test_before_acquire);
    assert!(o.has_after_release);
    assert!(o.has_after_connect);
    assert!(o.has_before_acquire);
}

#[test]
fn build_rejects_zero_max_connections() {
    let r = PoolOptions::new().max_connections(0).build("mysql://localhost/db");
    assert!(matches!(r, Err(PoolError::Config)));
}

#[test]
fn build_rejects_empty_uri() {
    let r = PoolOptions::new().build("");
    assert!(matches!(r, Err(PoolError::Config)));
}

#[test]
fn build_starts_lazy_and_empty() {
    let p = PoolOptions::new().build("mysql://localhost/db").unwrap();
    assert_eq!(p.permits, 0);
    assert_eq!(p.checked_out, 0);
    assert_eq!(p.establishing, 0);
    assert_eq!(p.idle.len(), 0);
    assert_eq!(p.waiters.len(), 0);
    assert!(!p.closed);
}

#[test]
fn build_clamps_minimum_to_maximum() {
    let p = PoolOptions::new()
        .min_connections(9)
        .max_connections(3)
        .build("mysql://localhost/db")
        .unwrap();
    assert_eq!(p.options.min_connections, 3);
    assert_eq!(p.options.max_connections, 3);
}

#[test]
fn establishment_error_kinds() {
    assert_eq!(PoolError::from_establishment(true), PoolError::Hook);
    assert_eq!(PoolError::from_establishment(false), PoolError::Connect);
}
