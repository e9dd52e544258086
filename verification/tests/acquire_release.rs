use sqlx_pool::{AcquireStep, IdleEntry, Pool, PoolOptions, ReleaseAction};

fn pool(max: u32, test_before_acquire: bool) -> Pool {
    PoolOptions::new()
        .max_connections(max)
        .test_before_acquire(test_before_acquire)
        .build("mysql://localhost/db")
        .unwrap()
}

/// Drives one full establishment: acquire must ask for one, and the
/// connector succeeds.
fn establish(p: &mut Pool, now: u64) -> IdleEntry {
    let out = p.try_acquire(now);
    assert!(matches!(out.step, AcquireStep::Establish));
    p.on_connect_result(true, now).unwrap()
}

#[test]
fn empty_pool_establishes_on_acquire() {
    let mut p = pool(2, false);
    let out = p.try_acquire(0);
    assert!(matches!(out.step, AcquireStep::Establish));
    assert!(out.discarded.is_empty());
    assert_eq!(p.permits, 1);
    assert_eq!(p.establishing, 1);
    let conn = p.on_connect_result(true, 0).unwrap();
    assert_eq!(p.checked_out, 1);
    assert_eq!(p.establishing, 0);
    assert_eq!(conn.created_at_ms, 0);
}

#[test]
fn released_connection_is_reused_lifo() {
    let mut p = pool(3, false);
    let c1 = establish(&mut p, 0);
    let c2 = establish(&mut p, 1);
    assert_ne!(c1.conn_id, c2.conn_id);
    assert!(matches!(p.release(c1, true, 10), ReleaseAction::Idled));
    assert!(matches!(p.release(c2, true, 11), ReleaseAction::Idled));
    assert_eq!(p.idle.len(), 2);
    // most recently idled connection comes back first
    let out = p.try_acquire(12);
    match out.step {
        AcquireStep::Ready { conn } => assert_eq!(conn.conn_id, c2.conn_id),
        other => panic!("expected Ready, got {:?}", other),
    }
}

#[test]
fn capacity_bound_is_never_exceeded() {
    // acquire far more often than the capacity allows: the permit count
    // stays within the maximum, and the overflow ends up waiting
    let mut p = pool(2, false);
    let _c1 = establish(&mut p, 0);
    let _c2 = establish(&mut p, 0);
    assert_eq!(p.permits, 2);
    for i in 0..5u64 {
        let out = p.try_acquire(i);
        assert!(matches!(out.step, AcquireStep::Wait { .. }));
        assert!(p.permits <= 2);
    }
    assert_eq!(p.waiters.len(), 5);
    assert_eq!(p.permits, 2);
}

#[test]
fn waiters_are_woken_in_fifo_order() {
    let mut p = pool(1, false);
    let c1 = establish(&mut p, 0);
    let wa = match p.try_acquire(1).step {
        AcquireStep::Wait { waiter_id } => waiter_id,
        other => panic!("expected Wait, got {:?}", other),
    };
    let wb = match p.try_acquire(2).step {
        AcquireStep::Wait { waiter_id } => waiter_id,
        other => panic!("expected Wait, got {:?}", other),
    };
    assert!(wa < wb);
    // first release serves A, the earlier waiter
    let got = match p.release(c1, true, 3) {
        ReleaseAction::HandOff { waiter_id, conn } => {
            assert_eq!(waiter_id, wa);
            conn
        }
        other => panic!("expected HandOff, got {:?}", other),
    };
    // A releases in turn; B is served next
    match p.release(got, true, 4) {
        ReleaseAction::HandOff { waiter_id, .. } => assert_eq!(waiter_id, wb),
        other => panic!("expected HandOff, got {:?}", other),
    }
}

#[test]
fn blocked_acquire_gets_same_connection_back() {
    // one-connection pool: a second acquire waits, and the release hands
    // it the very same connection, with no new establishment
    let mut p = pool(1, false);
    let c1 = establish(&mut p, 0);
    let out = p.try_acquire(1);
    let waiter = match out.step {
        AcquireStep::Wait { waiter_id } => waiter_id,
        other => panic!("expected Wait, got {:?}", other),
    };
    match p.release(c1, true, 2) {
        ReleaseAction::HandOff { waiter_id, conn } => {
            assert_eq!(waiter_id, waiter);
            assert_eq!(conn.conn_id, c1.conn_id);
        }
        other => panic!("expected HandOff, got {:?}", other),
    }
    assert_eq!(p.establishing, 0);
    assert_eq!(p.permits, 1);
}

#[test]
fn failed_ping_discards_and_replaces_transparently() {
    // a dead idle connection is discarded and replaced; the permit count
    // stays within bounds and the caller never sees the dead connection
    let mut p = pool(2, true);
    let out = p.try_acquire(0);
    assert!(matches!(out.step, AcquireStep::Establish));
    let c1 = p.on_connect_result(true, 0).unwrap();
    assert!(matches!(p.release(c1, true, 1), ReleaseAction::Idled));

    let out = p.try_acquire(2);
    let candidate = match out.step {
        AcquireStep::Test { conn } => conn,
        other => panic!("expected Test, got {:?}", other),
    };
    assert_eq!(candidate.conn_id, c1.conn_id);
    // the ping fails: the engine discards the candidate and asks for a
    // replacement establishment instead
    let out = p.on_test_result(candidate, false, 2);
    assert_eq!(out.discarded.len(), 1);
    assert_eq!(out.discarded[0].conn_id, c1.conn_id);
    assert!(matches!(out.step, AcquireStep::Establish));
    assert!(p.permits <= 2);
    let c2 = p.on_connect_result(true, 3).unwrap();
    assert_ne!(c2.conn_id, c1.conn_id);
    assert!(p.permits <= 2);
}

#[test]
fn passed_ping_hands_out_the_candidate() {
    let mut p = pool(2, true);
    let out = p.try_acquire(0);
    assert!(matches!(out.step, AcquireStep::Establish));
    let c1 = p.on_connect_result(true, 0).unwrap();
    p.release(c1, true, 1);
    let candidate = match p.try_acquire(2).step {
        AcquireStep::Test { conn } => conn,
        other => panic!("expected Test, got {:?}", other),
    };
    let out = p.on_test_result(candidate, true, 2);
    match out.step {
        AcquireStep::Ready { conn } => assert_eq!(conn.conn_id, c1.conn_id),
        other => panic!("expected Ready, got {:?}", other),
    }
    assert!(out.discarded.is_empty());
}

#[test]
fn connect_failure_releases_the_reserved_slot() {
    // the connector times out: the acquire surfaces an error and the
    // reserved permit is released, so a retry may establish again
    let mut p = PoolOptions::new()
        .max_connections(2)
        .connect_timeout(50)
        .test_before_acquire(false)
        .build("mysql://localhost/db")
        .unwrap();
    let out = p.try_acquire(0);
    assert!(matches!(out.step, AcquireStep::Establish));
    assert_eq!(p.permits, 1);
    // the embedding runtime gives the connector 50ms; a 200ms connector
    // misses the deadline and reports failure
    assert!(p.on_connect_result(false, 50).is_none());
    assert_eq!(p.permits, 0);
    assert_eq!(p.establishing, 0);
    // the slot is free again: a later acquire may retry establishment
    let out = p.try_acquire(60);
    assert!(matches!(out.step, AcquireStep::Establish));
    assert_eq!(p.permits, 1);
}

#[test]
fn release_with_false_verdict_closes_and_decrements() {
    // the after_release hook says no: the connection is closed, its
    // permit released, and it never reaches the idle store
    let mut p = pool(2, false);
    let c1 = establish(&mut p, 0);
    assert_eq!(p.permits, 1);
    match p.release(c1, false, 1) {
        ReleaseAction::Close { woken } => assert!(woken.is_none()),
        other => panic!("expected Close, got {:?}", other),
    }
    assert_eq!(p.permits, 0);
    assert_eq!(p.idle.len(), 0);
}

#[test]
fn close_release_wakes_a_waiter_for_the_free_slot() {
    let mut p = pool(1, false);
    let c1 = establish(&mut p, 0);
    let w = match p.try_acquire(1).step {
        AcquireStep::Wait { waiter_id } => waiter_id,
        other => panic!("expected Wait, got {:?}", other),
    };
    match p.release(c1, false, 2) {
        ReleaseAction::Close { woken } => assert_eq!(woken, Some(w)),
        other => panic!("expected Close, got {:?}", other),
    }
    // the woken waiter retries and may now establish
    let out = p.retry_acquire(3);
    assert!(matches!(out.step, AcquireStep::Establish));
}

#[test]
fn stale_idle_connection_is_never_handed_out() {
    // a connection idle past the timeout is discarded by the acquire
    // scan, never returned
    let mut p = PoolOptions::new()
        .max_connections(2)
        .idle_timeout(Some(100))
        .test_before_acquire(false)
        .build("mysql://localhost/db")
        .unwrap();
    let c1 = establish(&mut p, 0);
    p.release(c1, true, 0);
    assert_eq!(p.idle.len(), 1);
    // 150ms later the entry is over its 100ms idle bound
    let out = p.try_acquire(150);
    assert_eq!(out.discarded.len(), 1);
    assert_eq!(out.discarded[0].conn_id, c1.conn_id);
    assert!(matches!(out.step, AcquireStep::Establish));
}

#[test]
fn lifetime_expired_connection_is_closed_on_release() {
    let mut p = PoolOptions::new()
        .max_connections(2)
        .idle_timeout(None)
        .max_lifetime(Some(100))
        .test_before_acquire(false)
        .build("mysql://localhost/db")
        .unwrap();
    let c1 = establish(&mut p, 0);
    // by the time it comes back its lifetime is spent
    match p.release(c1, true, 500) {
        ReleaseAction::Close { woken } => assert!(woken.is_none()),
        other => panic!("expected Close, got {:?}", other),
    }
    assert_eq!(p.permits, 0);
}

#[test]
fn newcomer_cannot_overtake_a_waiter() {
    let mut p = pool(1, false);
    let c1 = establish(&mut p, 0);
    let w1 = match p.try_acquire(1).step {
        AcquireStep::Wait { waiter_id } => waiter_id,
        other => panic!("expected Wait, got {:?}", other),
    };
    p.release(c1, true, 2); // handed off to w1
    // a newcomer arriving now... nobody waits, idle is empty, pool at
    // capacity: it waits behind nothing and gets a fresh ticket
    let w2 = match p.try_acquire(3).step {
        AcquireStep::Wait { waiter_id } => waiter_id,
        other => panic!("expected Wait, got {:?}", other),
    };
    assert!(w1 < w2);
}

#[test]
fn cancelled_waiter_is_removed_without_waking_anyone() {
    let mut p = pool(1, false);
    let c1 = establish(&mut p, 0);
    let w1 = match p.try_acquire(1).step {
        AcquireStep::Wait { waiter_id } => waiter_id,
        other => panic!("expected Wait, got {:?}", other),
    };
    let w2 = match p.try_acquire(2).step {
        AcquireStep::Wait { waiter_id } => waiter_id,
        other => panic!("expected Wait, got {:?}", other),
    };
    // w1 gives up (acquire timeout): it leaves the queue, nothing else
    // changes
    assert!(p.cancel_waiter(w1));
    assert!(!p.cancel_waiter(w1));
    assert_eq!(p.waiters.len(), 1);
    assert_eq!(p.permits, 1);
    // the release now serves w2
    match p.release(c1, true, 3) {
        ReleaseAction::HandOff { waiter_id, .. } => assert_eq!(waiter_id, w2),
        other => panic!("expected HandOff, got {:?}", other),
    }
}

#[test]
fn acquire_on_closed_pool_is_refused() {
    let mut p = pool(2, false);
    let c1 = establish(&mut p, 0);
    let plan = p.close_pool();
    assert!(plan.to_close.is_empty());
    let out = p.try_acquire(1);
    assert!(matches!(out.step, AcquireStep::PoolClosed));
    // an outstanding borrow returned after close is closed, not re-idled
    match p.release(c1, true, 2) {
        ReleaseAction::Close { woken } => assert!(woken.is_none()),
        other => panic!("expected Close, got {:?}", other),
    }
    assert_eq!(p.permits, 0);
    assert_eq!(p.idle.len(), 0);
}
