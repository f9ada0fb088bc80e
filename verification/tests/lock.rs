use harbr::lock::{LockOp, LockState, LockTable, RepoLock, WriteAnswer};

#[test]
fn a_new_lock_is_idle() {
    let lock = RepoLock::new();
    assert_eq!(lock.state(), LockState::Idle);
    assert!(lock.is_idle());
    assert_eq!(lock.waiting_writers(), 0);
}

#[test]
fn readers_share_the_lock() {
    let mut lock = RepoLock::new();
    assert!(lock.try_read());
    assert!(lock.try_read());
    assert!(lock.try_read());
    assert_eq!(lock.state(), LockState::ReadHeld(3));
    assert!(lock.release_read());
    assert_eq!(lock.state(), LockState::ReadHeld(2));
    assert!(lock.release_read());
    assert!(lock.release_read());
    assert_eq!(lock.state(), LockState::Idle);
    assert!(!lock.release_read());
}

#[test]
fn of_two_writers_one_proceeds_at_a_time() {
    let mut lock = RepoLock::new();
    let mut holders = 0;

    assert_eq!(lock.request_write(), WriteAnswer::Granted);
    holders += 1;
    assert_eq!(lock.state(), LockState::WriteHeld);

    assert_eq!(lock.request_write(), WriteAnswer::Queued);
    assert!(!lock.retry_write());
    assert_eq!(holders, 1);
    assert_eq!(lock.waiting_writers(), 1);

    assert!(lock.release_write());
    holders -= 1;
    assert!(lock.is_idle());

    assert!(lock.retry_write());
    holders += 1;
    assert_eq!(holders, 1);
    assert_eq!(lock.state(), LockState::WriteHeld);
    assert_eq!(lock.waiting_writers(), 0);
    assert!(lock.release_write());
    assert!(!lock.release_write());
}

#[test]
fn a_writer_shuts_readers_out() {
    let mut lock = RepoLock::new();
    assert_eq!(lock.request_write(), WriteAnswer::Granted);
    assert!(!lock.try_read());
    assert_eq!(lock.state(), LockState::WriteHeld);
    assert!(lock.release_write());
    assert!(lock.try_read());
}

#[test]
fn a_writer_waits_for_readers_to_drain() {
    let mut lock = RepoLock::new();
    assert!(lock.try_read());
    assert!(lock.try_read());
    assert_eq!(lock.request_write(), WriteAnswer::Queued);
    assert!(!lock.retry_write());
    assert!(lock.release_read());
    assert!(!lock.retry_write());
    assert!(lock.release_read());
    assert!(lock.retry_write());
    assert_eq!(lock.state(), LockState::WriteHeld);
}

#[test]
fn a_waiting_writer_keeps_new_readers_out() {
    let mut lock = RepoLock::new();
    assert!(lock.try_read());
    assert_eq!(lock.request_write(), WriteAnswer::Queued);
    assert!(!lock.try_read());
    assert_eq!(lock.state(), LockState::ReadHeld(1));
    assert!(lock.release_read());
    assert!(!lock.try_read());
    assert!(lock.retry_write());
    assert!(lock.release_write());
    assert!(lock.try_read());
}

#[test]
fn a_writer_that_gives_up_lets_readers_in_again() {
    let mut lock = RepoLock::new();
    assert!(lock.try_read());
    assert_eq!(lock.request_write(), WriteAnswer::Queued);
    assert!(!lock.try_read());
    assert!(lock.cancel_write());
    assert!(!lock.cancel_write());
    assert!(lock.try_read());
    assert_eq!(lock.state(), LockState::ReadHeld(2));
}

#[test]
fn contention_never_shows_two_writers_or_a_writer_with_readers() {
    let ops = [
        LockOp::TryRead,
        LockOp::RequestWrite,
        LockOp::TryRead,
        LockOp::RequestWrite,
        LockOp::ReleaseRead,
        LockOp::RetryWrite,
        LockOp::RetryWrite,
        LockOp::TryRead,
        LockOp::ReleaseWrite,
        LockOp::ReleaseWrite,
        LockOp::RetryWrite,
        LockOp::CancelWrite,
        LockOp::ReleaseWrite,
        LockOp::TryRead,
        LockOp::TryRead,
        LockOp::RequestWrite,
        LockOp::ReleaseRead,
        LockOp::ReleaseRead,
        LockOp::RetryWrite,
    ];
    let mut lock = RepoLock::new();
    let mut readers: i64 = 0;
    let mut writers: i64 = 0;
    for round in 0..4 {
        for (i, op) in ops.iter().enumerate() {
            let served = lock.apply(*op);
            if served {
                match op {
                    LockOp::TryRead => readers += 1,
                    LockOp::RequestWrite | LockOp::RetryWrite => writers += 1,
                    LockOp::ReleaseRead => readers -= 1,
                    LockOp::ReleaseWrite => writers -= 1,
                    LockOp::CancelWrite => {}
                }
            }
            assert!(writers <= 1, "round {round} step {i}");
            assert!(writers == 0 || readers == 0, "round {round} step {i}");
            match lock.state() {
                LockState::WriteHeld => assert!(writers == 1 && readers == 0),
                LockState::ReadHeld(n) => assert!(writers == 0 && readers == n as i64),
                LockState::Idle => assert!(writers == 0 && readers == 0),
            }
        }
    }
}

#[test]
fn the_table_makes_locks_on_demand_and_keeps_them_apart() {
    let mut table = LockTable::new();
    assert!(table.peek("demo").is_idle());

    assert!(table.apply("demo", LockOp::RequestWrite));
    assert_eq!(table.peek("demo").state(), LockState::WriteHeld);
    assert_eq!(table.peek("other").state(), LockState::Idle);

    assert!(table.apply("other", LockOp::TryRead));
    assert!(table.apply("other", LockOp::TryRead));
    assert_eq!(table.peek("other").state(), LockState::ReadHeld(2));
    assert_eq!(table.peek("demo").state(), LockState::WriteHeld);

    assert!(!table.apply("demo", LockOp::RequestWrite));
    assert_eq!(table.peek("demo").waiting_writers(), 1);
    assert!(!table.apply("demo", LockOp::TryRead));
    assert!(table.apply("demo", LockOp::ReleaseWrite));
    assert!(table.apply("demo", LockOp::RetryWrite));
    assert_eq!(table.peek("demo").state(), LockState::WriteHeld);
    assert_eq!(table.peek("other").state(), LockState::ReadHeld(2));
}

#[test]
fn two_writers_on_one_name_in_the_table() {
    let mut table = LockTable::new();
    let mut holders = 0;
    if table.apply("demo", LockOp::RequestWrite) {
        holders += 1;
    }
    if table.apply("demo", LockOp::RequestWrite) {
        holders += 1;
    }
    assert_eq!(holders, 1);
    assert!(table.apply("demo", LockOp::ReleaseWrite));
    holders -= 1;
    if table.apply("demo", LockOp::RetryWrite) {
        holders += 1;
    }
    assert_eq!(holders, 1);
}
