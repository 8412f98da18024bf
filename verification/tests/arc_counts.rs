use syncrs::arc::{is_last, upgrade_count, weak_pointers, weak_pointers_beside_strong, ArcCounts};

#[test]
fn arc_counts_start_with_one_strong() {
    let counts = ArcCounts::new();
    assert_eq!(counts.strong_count(), 1);
    assert_eq!(counts.weak_count(), 0);
}

#[test]
fn arc_counts_clone_and_release() {
    let counts = ArcCounts::new();
    counts.acquire_strong();
    assert_eq!(counts.strong_count(), 2);
    assert!(!counts.release_strong());
    assert!(counts.release_strong());
    assert_eq!(counts.strong_count(), 0);
    assert!(counts.release_weak());
}

#[test]
fn arc_counts_upgrade_only_while_strong() {
    let counts = ArcCounts::new();
    counts.acquire_weak();
    assert_eq!(counts.weak_count(), 1);
    assert_eq!(counts.try_upgrade(), Ok(1));
    assert_eq!(counts.strong_count(), 2);
    assert!(!counts.release_strong());
    assert!(counts.release_strong());
    assert!(!counts.release_weak());
    assert_eq!(counts.try_upgrade(), Err(0));
    assert_eq!(counts.strong_count(), 0);
    assert_eq!(counts.weak_count_unheld(), 1);
    assert!(counts.release_weak());
}

#[test]
fn arc_counts_steps() {
    assert_eq!(upgrade_count(0), None);
    assert_eq!(upgrade_count(3), Some(4));
    assert_eq!(upgrade_count(usize::MAX), None);
    assert!(is_last(1));
    assert!(is_last(0));
    assert!(!is_last(2));
    assert_eq!(weak_pointers(2, 3), 2);
    assert_eq!(weak_pointers(0, 3), 3);
    assert_eq!(weak_pointers(1, 0), 0);
}

#[test]
fn arc_counts_weak_pointers_beside_strong() {
    let counts = ArcCounts::new();
    assert_eq!(counts.weak_count_unheld(), 0);
    counts.acquire_weak();
    counts.acquire_weak();
    assert_eq!(counts.weak_count(), 2);
    assert_eq!(weak_pointers_beside_strong(3), 2);
    assert_eq!(weak_pointers_beside_strong(0), 0);
}

#[test]
fn arc_counts_single_last_release() {
    let counts = ArcCounts::new();
    counts.acquire_weak();
    counts.acquire_weak();
    let lasts = (0..3).filter(|_| counts.release_weak()).count();
    assert_eq!(lasts, 1);
    assert!(is_last(1) && !is_last(3) && !is_last(2));
}
