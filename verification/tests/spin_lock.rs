use syncrs::spin::SpinLock;

#[test]
fn spin_try_lock_excludes_second_guard() {
    let lock = SpinLock::new();
    assert!(!lock.is_locked());
    let guard = lock.try_lock();
    assert!(guard.is_some());
    assert!(lock.is_locked());
    assert!(lock.try_lock().is_none());
    drop(guard);
    assert!(!lock.is_locked());
    assert!(lock.try_lock().is_some());
}

#[test]
fn spin_default_is_unlocked() {
    let lock = SpinLock::default();
    assert!(!lock.is_locked());
}

#[test]
fn spin_guard_from_exchange_follows_outcome() {
    let lock = SpinLock::new();
    assert!(lock.guard_from_exchange(Err(true)).is_none());
    let taken = lock.try_lock();
    assert!(taken.is_some());
    let guard = lock.guard_from_exchange(Ok(false));
    assert!(guard.is_some());
    drop(taken);
    assert!(!lock.is_locked());
}
