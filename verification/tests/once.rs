use syncrs::once::{decide_call, decide_wait, get_mut_if, take_if, CallOutcome, CallStep, Once, WaitStep};
use syncrs::OnceLock;

#[test]
fn once_runs_function_only_once() {
    let once = Once::new();
    let mut calls = 0;
    assert!(!once.is_initialized());
    assert!(matches!(once.try_call_once(|| calls += 1), Ok(CallOutcome::Ran)));
    assert!(once.is_initialized());
    assert!(matches!(once.try_call_once(|| calls += 1), Ok(CallOutcome::AlreadyDone)));
    assert_eq!(calls, 1);
}

#[test]
fn once_reset_reports_previous_state() {
    let once = Once::new();
    assert_eq!(once.try_reset(), Some(false));
    assert!(once.try_call_once(|| {}).is_ok());
    assert_eq!(once.try_reset(), Some(true));
    assert!(!once.is_initialized());
    let mut calls = 0;
    assert!(once.try_call_once(|| calls += 1).is_ok());
    assert_eq!(calls, 1);
}

#[test]
fn once_default_is_uninitialized() {
    let once: Once = Once::default();
    assert!(!once.is_initialized());
}

#[test]
fn once_waiteable_wakes_enrolled_waiter() {
    let once = Once::new_waiteable();
    assert_eq!(once.begin_wait(), WaitStep::Enrolled);
    assert!(once.try_wake().is_none());
    assert!(once.try_call_once(|| {}).is_ok());
    assert!(once.try_wake().is_some());
    assert_eq!(once.begin_wait(), WaitStep::Ready);
}

#[test]
fn once_lock_starts_empty() {
    let mut cell: OnceLock<i32> = OnceLock::new();
    assert!(!cell.is_initialized());
    assert_eq!(cell.get_mut(), None);
    assert_eq!(cell.take(), None);
    assert_eq!(cell.into_inner(), None);
    let waiteable: OnceLock<i32, _> = OnceLock::new_waiteable();
    assert!(!waiteable.is_initialized());
    let default: OnceLock<u8> = OnceLock::default();
    assert!(!default.is_initialized());
}

#[test]
fn once_lock_take_resets() {
    let mut cell: OnceLock<i32> = OnceLock::new();
    assert!(cell.try_call_once(|| {}).is_ok());
    assert!(cell.is_initialized());
    assert_eq!(cell.take(), None);
    assert!(!cell.is_initialized());
}

#[test]
fn once_lock_waiteable_wakes_waiter() {
    let cell: OnceLock<u8, _> = OnceLock::new_waiteable();
    assert_eq!(cell.begin_wait(), WaitStep::Enrolled);
    assert!(cell.try_wake().is_none());
    assert!(cell.try_call_once(|| {}).is_ok());
    assert!(cell.try_wake().is_some());
    assert_eq!(cell.begin_wait(), WaitStep::Ready);
}

#[test]
fn once_wait_decision_steps() {
    assert_eq!(decide_wait(true, false, false), WaitStep::Ready);
    assert_eq!(decide_wait(false, false, false), WaitStep::Busy);
    assert_eq!(decide_wait(false, true, true), WaitStep::Ready);
    assert_eq!(decide_wait(false, true, false), WaitStep::Enrolled);
}

#[test]
fn once_lock_slot_helpers() {
    let mut slot = Some(12);
    assert_eq!(take_if(false, &mut slot), None);
    assert_eq!(slot, Some(12));
    if let Some(v) = get_mut_if(true, &mut slot) {
        *v = 13;
    }
    assert_eq!(get_mut_if(false, &mut slot), None);
    assert_eq!(take_if(true, &mut slot), Some(13));
    assert_eq!(slot, None);
    assert_eq!(get_mut_if(true, &mut slot), None);
}

#[test]
fn once_call_decision_steps() {
    assert_eq!(decide_call(true, false, false), CallStep::Done);
    assert_eq!(decide_call(false, false, false), CallStep::Busy);
    assert_eq!(decide_call(false, true, true), CallStep::Done);
    assert_eq!(decide_call(false, true, false), CallStep::Run);
}
