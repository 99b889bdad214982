use game_mode::singleton::{AcquireError, AcquireStep, LockRead, SingletonGuard};

#[test]
fn takes_over_from_a_live_predecessor() {
    let mut guard = SingletonGuard::new(200);
    assert_eq!(guard.step(), AcquireStep::ReadLock);
    guard.on_lock_read(LockRead::Text("1234\n".to_string()));
    assert_eq!(guard.step(), AcquireStep::ProbeHolder(1234));
    guard.on_probe(true);
    assert_eq!(guard.step(), AcquireStep::KillHolder(1234));
    guard.on_kill(true);
    assert_eq!(guard.step(), AcquireStep::AwaitExit(1234));
    guard.on_exit_check(true);
    assert_eq!(guard.step(), AcquireStep::AwaitExit(1234));
    guard.on_exit_check(false);
    assert_eq!(guard.step(), AcquireStep::WriteLock(200));
    assert_eq!(guard.lock_record(), "200");
    guard.on_write(true);
    assert_eq!(guard.step(), AcquireStep::Acquired);
}

#[test]
fn dead_or_missing_or_own_holder_goes_straight_to_writing() {
    let mut guard = SingletonGuard::new(7);
    guard.on_lock_read(LockRead::Text("99".to_string()));
    guard.on_probe(false);
    assert_eq!(guard.step(), AcquireStep::WriteLock(7));

    let mut guard = SingletonGuard::new(7);
    guard.on_lock_read(LockRead::Absent);
    assert_eq!(guard.step(), AcquireStep::WriteLock(7));

    let mut guard = SingletonGuard::new(7);
    guard.on_lock_read(LockRead::Text(" 7 ".to_string()));
    assert_eq!(guard.step(), AcquireStep::WriteLock(7));

    let mut guard = SingletonGuard::new(7);
    guard.on_lock_read(LockRead::Text("not a pid".to_string()));
    assert_eq!(guard.step(), AcquireStep::WriteLock(7));

    let mut guard = SingletonGuard::new(7);
    guard.on_lock_read(LockRead::Text("0\n".to_string()));
    assert_eq!(guard.step(), AcquireStep::WriteLock(7));
}

#[test]
fn failed_kill_is_not_fatal() {
    let mut guard = SingletonGuard::new(5);
    guard.on_lock_read(LockRead::Text("6".to_string()));
    guard.on_probe(true);
    guard.on_kill(false);
    assert_eq!(guard.step(), AcquireStep::WriteLock(5));
}

#[test]
fn unreadable_or_unwritable_lock_is_fatal() {
    let mut guard = SingletonGuard::new(5);
    guard.on_lock_read(LockRead::Unreadable);
    assert_eq!(guard.step(), AcquireStep::Failed(AcquireError::LockUnreadable));

    let mut guard = SingletonGuard::new(5);
    guard.on_lock_read(LockRead::Absent);
    guard.on_write(false);
    assert_eq!(guard.step(), AcquireStep::Failed(AcquireError::LockUnwritable));
}

#[test]
fn reports_out_of_turn_change_nothing() {
    let mut guard = SingletonGuard::new(5);
    guard.on_probe(true);
    guard.on_kill(true);
    guard.on_write(true);
    assert_eq!(guard.step(), AcquireStep::ReadLock);
}
