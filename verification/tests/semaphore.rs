use syncrs::semaphore::{permit_outcome, take_permits, Semaphore};

#[test]
fn semaphore_starts_at_zero() {
    let s = Semaphore::new();
    assert_eq!(s.get_value(), 0);
    assert_eq!(Semaphore::default().get_value(), 0);
    assert_eq!(Semaphore::with_initial_value(7).get_value(), 7);
}

#[test]
fn semaphore_try_dec_takes_when_enough() {
    let s = Semaphore::with_initial_value(3);
    assert_eq!(s.try_dec(5), None);
    assert_eq!(s.get_value(), 3);
    assert_eq!(s.try_dec(2), Some(()));
    assert_eq!(s.get_value(), 1);
    assert_eq!(s.try_dec(1), Some(()));
    assert_eq!(s.get_value(), 0);
    assert_eq!(s.try_dec(1), None);
}

#[test]
fn semaphore_try_dec_zero_always_succeeds() {
    let s = Semaphore::new();
    assert_eq!(s.try_dec(0), Some(()));
    assert_eq!(s.get_value(), 0);
}

#[test]
fn semaphore_inc_adds_and_wraps() {
    let s = Semaphore::new();
    s.inc(4);
    assert_eq!(s.get_value(), 4);
    let full = Semaphore::with_initial_value(u16::MAX);
    full.inc(2);
    assert_eq!(full.get_value(), 1);
}

#[test]
fn semaphore_dec_after_inc_restores() {
    let s = Semaphore::with_initial_value(10);
    s.inc(5);
    assert_eq!(s.try_dec(5), Some(()));
    assert_eq!(s.get_value(), 10);
}

#[test]
fn semaphore_take_permits_exact_values() {
    assert_eq!(take_permits(5, 3), Some(2));
    assert_eq!(take_permits(3, 3), Some(0));
    assert_eq!(take_permits(2, 3), None);
    assert_eq!(take_permits(0, 0), Some(0));
    assert_eq!(take_permits(u16::MAX, 1), Some(u16::MAX - 1));
}

#[test]
fn semaphore_increments_then_decrements_leave_one() {
    let semaphore = Semaphore::new();
    semaphore.inc(1);
    semaphore.inc(2);
    semaphore.inc(1);
    semaphore.inc(2);
    for _ in 0..5 {
        assert_eq!(semaphore.try_dec(1), Some(()));
    }
    assert_eq!(semaphore.get_value(), 1);
}

#[test]
fn semaphore_permit_outcome_follows_update() {
    assert_eq!(permit_outcome(Ok(4)), Some(()));
    assert_eq!(permit_outcome(Err(0)), None);
}
