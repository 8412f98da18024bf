//! The reference counts of an atomically reference-counted pointer
//!
//! An `Arc` shares one allocation between its clones; the allocation holds a
//! count of the strong pointers (which keep the value alive) and of the weak
//! ones (which keep only the allocation). [ArcCounts] is that pair of counts
//! and the decisions taken on it: whether a weak pointer may be upgraded and
//! whether a release was the last one.
//!
//! The weak count holds one reference more than there are weak pointers
//! while any strong pointer lives: the strong pointers together hold it, and
//! the one that drops the value gives it up. So whoever takes the last weak
//! reference away frees the allocation, and it is freed exactly once.

use core::sync::atomic::{AtomicUsize, Ordering};
use vstd::prelude::*;

use crate::atomic_ops::{created_usize, new_usize, update_usize};

verus! {

/// The strong count after a weak pointer is upgraded, or `None` when no
/// strong pointer is left (the value is gone) or the count is full.
pub open spec fn upgraded(strong: usize) -> Option<usize> {
    if 0 < strong && strong < usize::MAX {
        Some((strong + 1) as usize)
    } else {
        None
    }
}

/// Whether a release that found `count` references (before taking its own
/// away) released the last one.
pub open spec fn released_last(count: usize) -> bool {
    count <= 1
}

/// Adds a strong reference for an upgrade, unless none is left.
pub fn upgrade_count(strong: usize) -> (r: Option<usize>)
    ensures
        r == upgraded(strong),
{
    if 0 < strong && strong < usize::MAX {
        Some(strong + 1)
    } else {
        None
    }
}

/// Whether a release that found `count` references released the last one.
pub fn is_last(count: usize) -> (r: bool)
    ensures
        r == released_last(count),
{
    count <= 1
}

/// A weak pointer can be upgraded exactly while a strong one lives, and the
/// upgrade adds one strong reference; a release of that reference finds more
/// than one and so is not the last.
pub proof fn law_upgrade(strong: usize)
    requires
        strong < usize::MAX,
    ensures
        upgraded(strong) is Some <==> strong > 0,
        upgraded(strong) matches Some(next) ==> next == strong + 1 && !released_last(next),
{
}

/// The number of weak pointers, given the strong count and the weak count
/// read: while a strong pointer lives, one weak reference is theirs.
pub open spec fn weak_pointers_of(strong: usize, weak: usize) -> usize {
    if strong > 0 && weak > 0 {
        (weak - 1) as usize
    } else {
        weak
    }
}

/// The number of weak pointers, as [`weak_pointers_of`] gives it.
pub fn weak_pointers(strong: usize, weak: usize) -> (r: usize)
    ensures
        r == weak_pointers_of(strong, weak),
{
    if strong > 0 && weak > 0 {
        weak - 1
    } else {
        weak
    }
}

/// While a strong pointer lives, the count of weak pointers leaves out the
/// reference the strong pointers hold; once none lives, every weak reference
/// is a weak pointer's.
pub proof fn law_weak_pointers(strong: usize, pointers: usize)
    requires
        pointers < usize::MAX,
    ensures
        strong > 0 ==> weak_pointers_of(strong, (pointers + 1) as usize) == pointers,
        weak_pointers_of(0, pointers) == pointers,
{
}

/// Of the releases that take `count` references away one at a time, exactly
/// one finds it was the last: the one that finds a single reference left.
/// Applied to the strong count, the value is dropped once; applied to the
/// weak count (which holds the strong pointers' reference until the value is
/// dropped), the allocation is freed once.
pub proof fn law_single_last_release(count: usize, released: usize)
    requires
        released < count,
    ensures
        released_last((count - released) as usize) <==> released == count - 1,
{
}

/// The number of weak pointers, for a caller that holds a strong pointer:
/// the weak count less the reference the strong pointers hold.
pub open spec fn weak_pointers_held(weak: usize) -> usize {
    if weak > 0 {
        (weak - 1) as usize
    } else {
        0
    }
}

/// For a caller holding a strong pointer, every weak reference but the
/// strong pointers' one is a weak pointer: `p` weak pointers beside the
/// strong ones make a weak count of `p + 1`, and are counted as `p`. Adding a
/// weak pointer counts one more.
pub proof fn law_weak_pointers_held(pointers: usize)
    requires
        pointers < usize::MAX,
    ensures
        weak_pointers_held((pointers + 1) as usize) == pointers,
        pointers + 2 <= usize::MAX ==> weak_pointers_held((pointers + 2) as usize)
            == weak_pointers_held((pointers + 1) as usize) + 1,
{
}

/// The number of weak pointers, as [`weak_pointers_held`] gives it.
pub fn weak_pointers_beside_strong(weak: usize) -> (r: usize)
    ensures
        r == weak_pointers_held(weak),
{
    if weak > 0 {
        weak - 1
    } else {
        0
    }
}

/// The strong and weak counts of a shared allocation
pub struct ArcCounts {
    strong: AtomicUsize,
    weak: AtomicUsize,
}

impl ArcCounts {
    /// The counts were created as `strong` strong and `weak` weak references.
    pub closed spec fn created_with(&self, strong: usize, weak: usize) -> bool {
        &&& self.strong == created_usize(strong)
        &&& self.weak == created_usize(weak)
    }

    /// The counts of a new allocation: one strong pointer, no weak pointer,
    /// and the one weak reference the strong pointers hold.
    pub fn new() -> (r: Self)
        ensures
            r.created_with(1, 1),
    {
        Self { strong: new_usize(1), weak: new_usize(1) }
    }

    /// The strong count at the moment it is read
    pub fn strong_count(&self) -> (r: usize) {
        self.strong.load(Ordering::Acquire)
    }

    /// The number of weak pointers, for a caller that holds a strong
    /// pointer: the strong pointers' reference is then certainly still held,
    /// so one read of the weak count suffices, as
    /// [`weak_pointers_beside_strong`] computes.
    pub fn weak_count(&self) -> (r: usize) {
        weak_pointers_beside_strong(self.weak.load(Ordering::Acquire))
    }

    /// The number of weak pointers, for a caller that may hold no strong
    /// pointer: the strong count is read first, then the weak count, and
    /// [`weak_pointers`] combines them. While the last strong pointer is
    /// being dropped, the reference it gives up may still be counted.
    pub fn weak_count_unheld(&self) -> (r: usize) {
        let strong = self.strong.load(Ordering::Acquire);
        let weak = self.weak.load(Ordering::Acquire);
        weak_pointers(strong, weak)
    }

    /// Adds a strong reference, for a clone of a strong pointer.
    pub fn acquire_strong(&self) {
        self.strong.fetch_add(1, Ordering::Relaxed);
    }

    /// Adds a weak reference, for a new weak pointer.
    pub fn acquire_weak(&self) {
        self.weak.fetch_add(1, Ordering::Relaxed);
    }

    /// Adds a strong reference for an upgrade, as [`upgrade_count`] decides
    /// on the count it reads. Returns `Ok` with the strong count it found
    /// when it added one, and `Err` with the count found when it did not.
    pub fn try_upgrade(&self) -> (r: Result<usize, usize>)
        ensures
            r matches Ok(found) ==> upgraded(found) is Some,
            r matches Err(found) ==> upgraded(found) is None,
    {
        let step = |strong: usize| -> (next: Option<usize>)
            ensures
                next == upgraded(strong),
            { upgrade_count(strong) };
        update_usize(&self.strong, Ordering::Acquire, Ordering::Relaxed, step)
    }

    /// Takes a strong reference away; returns whether it was the last one,
    /// as [`is_last`] decides on the count found.
    pub fn release_strong(&self) -> (r: bool) {
        is_last(self.strong.fetch_sub(1, Ordering::AcqRel))
    }

    /// Takes a weak reference away; returns whether it was the last one,
    /// as [`is_last`] decides on the count found. The one that takes the last
    /// frees the allocation.
    pub fn release_weak(&self) -> (r: bool) {
        is_last(self.weak.fetch_sub(1, Ordering::AcqRel))
    }
}

} // verus!
