use syncrs::Mutex;

#[test]
fn mutex_into_inner_gives_value_back() {
    let mutex = Mutex::new(120);
    assert_eq!(Mutex::into_inner(mutex), 120);
}

#[test]
fn mutex_try_lock_fails_while_held() {
    let mutex = Mutex::new(10);
    let guard1 = mutex.try_lock();
    assert!(guard1.is_some());
    assert!(mutex.try_lock().is_none());
    drop(guard1);
    assert!(mutex.try_lock().is_some());
}

#[test]
fn mutex_is_locked_while_guard_lives() {
    let mutex = Mutex::new(5);
    {
        let _guard = mutex.try_lock().unwrap();
        assert!(mutex.is_locked());
    }
    assert!(!mutex.is_locked());
}

#[test]
fn mutex_get_mut_writes_through() {
    let mut mutex = Mutex::new(5);
    *mutex.get_mut() += 2;
    assert_eq!(*mutex.get_mut(), 7);
    assert_eq!(mutex.into_inner(), 7);
}

#[test]
fn mutex_default_holds_default_value() {
    let mutex: Mutex<u32> = Mutex::default();
    assert!(!mutex.is_locked());
    assert_eq!(mutex.into_inner(), 0);
}

#[test]
fn mutex_guard_knows_its_mutex() {
    let mutex = Mutex::new(1u8);
    let guard = mutex.try_lock().unwrap();
    assert!(std::ptr::eq(guard.mutex(), &mutex));
}
