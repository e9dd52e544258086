use sqlx_pool::{AcquireStep, ConnectOptions, PoolError, PoolOptions, ReleaseAction};

#[test]
fn connect_options_accept_any_nonempty_uri() {
    let o = ConnectOptions::from_uri("mysql://user@host:3306/db").unwrap();
    assert_eq!(o.uri, "mysql://user@host:3306/db");
    assert!(ConnectOptions::from_uri("").is_err());
}

#[test]
fn before_acquire_hook_forces_vetting() {
    // even with the ping disabled, a configured before_acquire hook makes
    // every idle candidate a test candidate
    let mut p = PoolOptions::new()
        .max_connections(2)
        .test_before_acquire(false)
        .before_acquire()
        .build("mysql://localhost/db")
        .unwrap();
    let out = p.try_acquire(0);
    assert!(matches!(out.step, AcquireStep::Establish));
    let c = p.on_connect_result(true, 0).unwrap();
    assert!(matches!(p.release(c, true, 1), ReleaseAction::Idled));
    let out = p.try_acquire(2);
    assert!(matches!(out.step, AcquireStep::Test { .. }));
}

#[test]
fn live_connections_stay_bounded_across_mixed_traffic() {
    // a longer interleaving of acquires, releases, failures, eviction and
    // top-up: the permit count never leaves 0..=max and always accounts
    // for idle + checked out + establishing
    let max: u32 = 3;
    let mut p = PoolOptions::new()
        .min_connections(1)
        .max_connections(max)
        .idle_timeout(Some(100))
        .test_before_acquire(false)
        .build("mysql://localhost/db")
        .unwrap();
    let mut held = Vec::new();
    let mut now: u64 = 0;
    for round in 0..6u64 {
        now += 30;
        let out = p.try_acquire(now);
        match out.step {
            AcquireStep::Ready { conn } => held.push(conn),
            AcquireStep::Establish => {
                if round % 2 == 0 {
                    held.push(p.on_connect_result(true, now).unwrap());
                } else {
                    assert!(p.on_connect_result(false, now).is_none());
                }
            }
            AcquireStep::Wait { waiter_id } => {
                assert!(p.cancel_waiter(waiter_id));
            }
            other => panic!("unexpected step {:?}", other),
        }
        assert!(p.permits <= max);
        assert_eq!(
            p.permits as usize,
            p.idle.len() + p.checked_out as usize + p.establishing as usize
        );
        if held.len() > 1 {
            let c = held.remove(0);
            p.release(c, round % 3 != 0, now);
            assert!(p.permits <= max);
        }
        now += 60;
        let plan = p.maintain(now);
        for _ in 0..plan.establish {
            p.on_maintain_connect(true, now);
        }
        assert!(p.permits <= max);
        assert_eq!(
            p.permits as usize,
            p.idle.len() + p.checked_out as usize + p.establishing as usize
        );
    }
}

#[test]
fn discarded_stale_entries_free_their_permits() {
    // two idle connections go stale together; an acquire discards both
    // and reuses the capacity for one fresh establishment
    let mut p = PoolOptions::new()
        .max_connections(2)
        .idle_timeout(Some(10))
        .test_before_acquire(false)
        .build("mysql://localhost/db")
        .unwrap();
    let mut held = Vec::new();
    for _ in 0..2 {
        let out = p.try_acquire(0);
        assert!(matches!(out.step, AcquireStep::Establish));
        held.push(p.on_connect_result(true, 0).unwrap());
    }
    for c in held {
        p.release(c, true, 0);
    }
    assert_eq!(p.idle.len(), 2);
    assert_eq!(p.permits, 2);
    let out = p.try_acquire(1_000);
    assert_eq!(out.discarded.len(), 2);
    assert!(matches!(out.step, AcquireStep::Establish));
    assert_eq!(p.permits, 1);
    assert_eq!(p.idle.len(), 0);
}

#[test]
fn acquire_timeout_differs_from_connect_failure() {
    // the two error paths of a failed acquire carry distinct kinds
    assert_ne!(PoolError::AcquireTimeout, PoolError::Connect);
    assert_ne!(PoolError::from_establishment(true), PoolError::Connect);
}
