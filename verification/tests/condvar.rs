use syncrs::condvar::{unregister_one, wake_one_of};
use syncrs::{Condvar, Mutex};

#[test]
fn condvar_notify_without_waiters_wakes_nobody() {
    let cv = Condvar::new();
    cv.notify_one();
    cv.notify_all();
    assert!(cv.try_wake().is_none());
}

#[test]
fn condvar_enroll_releases_the_mutex() {
    let mutex = Mutex::new(0);
    let cv = Condvar::default();
    let guard = mutex.try_lock().unwrap();
    let back = cv.enroll(guard);
    assert!(std::ptr::eq(back, &mutex));
    assert!(!mutex.is_locked());
    assert!(cv.try_wake().is_none());
}

#[test]
fn condvar_notify_one_wakes_one_at_a_time() {
    let mutex = Mutex::new(0);
    let cv = Condvar::new();
    cv.enroll(mutex.try_lock().unwrap());
    cv.enroll(mutex.try_lock().unwrap());
    cv.notify_one();
    assert!(cv.try_wake().is_some());
    assert!(cv.try_wake().is_none());
    cv.notify_one();
    assert!(cv.try_wake().is_some());
    assert!(cv.try_wake().is_none());
    cv.notify_one();
    assert!(cv.try_wake().is_none());
}

#[test]
fn condvar_notify_all_wakes_every_waiter() {
    let mutex = Mutex::new(0);
    let cv = Condvar::new();
    for _ in 0..3 {
        cv.enroll(mutex.try_lock().unwrap());
    }
    cv.notify_all();
    for _ in 0..3 {
        assert!(cv.try_wake().is_some());
    }
    assert!(cv.try_wake().is_none());
    cv.notify_all();
    assert!(cv.try_wake().is_none());
}

#[test]
fn condvar_notify_one_steps() {
    assert_eq!(unregister_one(0), 0);
    assert_eq!(unregister_one(3), 2);
    assert_eq!(wake_one_of(0), 0);
    assert_eq!(wake_one_of(1), 1);
    assert_eq!(wake_one_of(5), 1);
    for n in [0u16, 1, 2, 9, u16::MAX] {
        assert_eq!(unregister_one(n) + wake_one_of(n), n);
    }
}
