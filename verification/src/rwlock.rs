//! A read-write lock
//!
//! The state of the lock is one word: its top bit, [`WRITE_FLAG`], is set
//! while a writer holds the lock, and the bits below count the readers.
//! Taking the lock is a single read-modify-write of that word, decided by
//! [`acquire_read_word`] or [`acquire_write_word`]; dropping a guard undoes
//! what taking it did.

use core::cell::UnsafeCell;
use core::sync::atomic::{AtomicU64, Ordering};
use vstd::prelude::*;

use crate::atomic_ops::{and_u64, created_u64, new_u64, sub_u64, update_u64};

verus! {

/// The bit of the state word that is set while the lock is held for writing.
pub const WRITE_FLAG: u64 = 0x8000_0000_0000_0000;

/// The largest number of readers the state word can count.
pub const MAX_READERS: u64 = 0x7fff_ffff_ffff_ffff;

/// Whether the state word `word` says the lock is held for writing.
pub open spec fn word_writing(word: u64) -> bool {
    word >= WRITE_FLAG
}

/// The number of readers the state word `word` counts.
pub open spec fn word_readers(word: u64) -> nat {
    if word >= WRITE_FLAG {
        (word - WRITE_FLAG) as nat
    } else {
        word as nat
    }
}

/// The state word of a lock that is (or is not) held for writing and is
/// held by `readers` readers.
pub open spec fn state_word(writing: bool, readers: nat) -> int {
    (if writing { WRITE_FLAG as int } else { 0 }) + readers
}

/// A writer excludes every reader.
pub open spec fn exclusive(word: u64) -> bool {
    word_writing(word) ==> word_readers(word) == 0
}

/// The state word after one more reader takes the lock, or `None` when the
/// lock is held for writing (or already counts the most readers it can).
pub open spec fn read_acquired(word: u64) -> Option<u64> {
    if word_writing(word) || word_readers(word) == MAX_READERS {
        None
    } else {
        Some((word + 1) as u64)
    }
}

/// The state word after a writer takes the lock, or `None` unless the lock
/// is free: neither written nor read.
pub open spec fn write_acquired(word: u64) -> Option<u64> {
    if !word_writing(word) && word_readers(word) == 0 {
        Some(WRITE_FLAG)
    } else {
        None
    }
}

/// Why a writer is refused the lock in state `word`.
pub open spec fn write_refusal(word: u64) -> RwLockError {
    if word_writing(word) {
        RwLockError::WriteWhileWrite
    } else {
        RwLockError::WriteWhileRead
    }
}

/// The state word after a reader drops its guard: one reader fewer.
pub open spec fn read_released(word: u64) -> u64 {
    (word - 1) as u64
}

/// The state word after the writer drops its guard: the write flag cleared.
pub open spec fn write_released(word: u64) -> u64 {
    word_readers(word) as u64
}

/// Registers one more reader in the state word `word`, if the lock is not
/// held for writing.
pub fn acquire_read_word(word: u64) -> (r: Option<u64>)
    ensures
        r == read_acquired(word),
{
    if word >= WRITE_FLAG || word == MAX_READERS {
        None
    } else {
        Some(word + 1)
    }
}

/// Marks the state word `word` as held for writing, if the lock is free.
pub fn acquire_write_word(word: u64) -> (r: Option<u64>)
    ensures
        r == write_acquired(word),
{
    if word == 0 {
        Some(WRITE_FLAG)
    } else {
        None
    }
}

/// The error a writer is given when it is refused the lock in state `word`.
pub fn write_refusal_of(word: u64) -> (r: RwLockError)
    ensures
        r == write_refusal(word),
{
    if word >= WRITE_FLAG {
        RwLockError::WriteWhileWrite
    } else {
        RwLockError::WriteWhileRead
    }
}

/// The state word records both whether the lock is written and how many
/// readers hold it, and reads both back.
pub proof fn law_state_word_round_trip(writing: bool, readers: nat)
    requires
        readers <= MAX_READERS,
    ensures
        0 <= state_word(writing, readers) <= u64::MAX,
        word_writing(state_word(writing, readers) as u64) == writing,
        word_readers(state_word(writing, readers) as u64) == readers,
{
}

/// Every way of taking or releasing the lock keeps a writer exclusive: no
/// state reached from an exclusive one has both a writer and readers.
pub proof fn law_exclusion_is_kept(word: u64)
    requires
        exclusive(word),
    ensures
        read_acquired(word) matches Some(next) ==> exclusive(next),
        write_acquired(word) matches Some(next) ==> exclusive(next),
        !word_writing(word) && word_readers(word) > 0 ==> exclusive(read_released(word)),
        word_writing(word) ==> exclusive(write_released(word)),
{
}

/// A reader is let in exactly when no writer holds the lock (and the count
/// of readers is not full); it adds one reader and nothing else.
pub proof fn law_read_acquire(word: u64)
    ensures
        read_acquired(word) is Some <==> !word_writing(word) && word_readers(word) < MAX_READERS,
        read_acquired(word) matches Some(next) ==> !word_writing(next) && word_readers(next) == word_readers(word) + 1,
{
}

/// A writer is let in exactly when the lock is free; otherwise it is told
/// whether a writer or readers hold the lock.
pub proof fn law_write_acquire(word: u64)
    ensures
        write_acquired(word) is Some <==> !word_writing(word) && word_readers(word) == 0,
        write_acquired(word) matches Some(next) ==> word_writing(next) && word_readers(next) == 0,
        write_acquired(word) is None && word_writing(word) ==> write_refusal(word) == RwLockError::WriteWhileWrite,
        write_acquired(word) is None && !word_writing(word) ==> write_refusal(word) == RwLockError::WriteWhileRead,
{
}

/// While a writer holds the lock nobody else gets it: a reader is refused,
/// and another writer is refused with `WriteWhileWrite`.
pub proof fn law_writer_excludes_all(word: u64)
    requires
        write_acquired(word) is Some,
    ensures
        read_acquired(write_acquired(word).unwrap()) is None,
        write_acquired(write_acquired(word).unwrap()) is None,
        write_refusal(write_acquired(word).unwrap()) == RwLockError::WriteWhileWrite,
{
}

/// While a reader holds the lock a writer is refused with `WriteWhileRead`.
pub proof fn law_reader_excludes_writer(word: u64)
    requires
        read_acquired(word) is Some,
    ensures
        write_acquired(read_acquired(word).unwrap()) is None,
        write_refusal(read_acquired(word).unwrap()) == RwLockError::WriteWhileRead,
{
}

/// Dropping a guard undoes taking it: the state word is back to what it
/// was before.
pub proof fn law_release_undoes_acquire(word: u64)
    ensures
        read_acquired(word) matches Some(next) ==> read_released(next) == word,
        write_acquired(word) matches Some(next) ==> write_released(next) == word,
{
}

/// The mask that a writer's guard applies to the state word when dropped
/// clears the write flag and keeps the count of readers, which is what
/// [`write_released`] describes.
pub proof fn law_write_release_mask(word: u64)
    ensures
        word & MAX_READERS == write_released(word),
{
    assert(word & 0x7fff_ffff_ffff_ffff == if word >= 0x8000_0000_0000_0000 {
        (word - 0x8000_0000_0000_0000) as u64
    } else {
        word
    }) by (bit_vector);
}

/// Releasing the writer leaves no writer and keeps the readers counted; in
/// particular a writer that took a free lock leaves it free, so a second
/// writer gets in after the first drops its guard.
pub proof fn law_write_release_frees(word: u64)
    ensures
        !word_writing(write_released(word)),
        word_readers(write_released(word)) == word_readers(word),
        write_acquired(word) matches Some(held) ==> write_released(held) == 0
            && write_acquired(write_released(held)) == Some(WRITE_FLAG),
{
}

/// Releasing a reader takes exactly that reader away: no writer appears and
/// the count of readers drops by one, so once every reader of a free lock is
/// released a writer gets in.
pub proof fn law_read_release_counts_down(word: u64)
    requires
        !word_writing(word),
        word_readers(word) > 0,
    ensures
        !word_writing(read_released(word)),
        word_readers(read_released(word)) + 1 == word_readers(word),
        word_readers(word) == 1 ==> write_acquired(read_released(word)) == Some(WRITE_FLAG),
{
}

/// A read-write lock
///
/// This lock allows an arbitrary amount of readers, or a single writer
/// at the same time.
///
/// If you lock for writing ([RwLock::write]), it fails unless no guard
/// is holding a read or write lock on this object.
///
/// If you lock for reading ([RwLock::read]), it fails while a write-lock
/// exists.
#[verifier::reject_recursive_types(T)]
pub struct RwLock<T> {
    state: AtomicU64,
    elem: UnsafeCell<T>,
}

/// A read guard for a [RwLock].
/// This object is created by [RwLock::read]. It grants read-only access
/// to the inner value, reached through [`RwLockReadGuard::cell`].
#[must_use]
#[verifier::reject_recursive_types(T)]
pub struct RwLockReadGuard<'a, T> {
    lock: &'a RwLock<T>,
}

/// A write guard for a [RwLock].
/// This object is created by [RwLock::write]
///
/// It provides unique (thus mutable) access to the inner object, reached
/// through [`RwLockWriteGuard::cell`].
#[must_use]
#[verifier::reject_recursive_types(T)]
pub struct RwLockWriteGuard<'a, T> {
    lock: &'a RwLock<T>,
}

/// An error for the [RwLock]
#[derive(Debug, Clone, Copy, PartialEq, Eq, Structural)]
pub enum RwLockError {
    /// Attempt to get a write lock, while it was
    /// already borrowed for writes
    WriteWhileWrite,
    /// Attempt to get a write lock while holding a
    /// read access guard
    WriteWhileRead,
    /// Attempt to get a read lock while holding
    /// a write guard
    ReadWhileWrite,
}

/// The result of taking a [RwLock]
pub type RwLockResult<T> = Result<T, RwLockError>;

impl<'a, T> RwLockReadGuard<'a, T> {
    /// The lock the guard was given out by.
    pub closed spec fn read_lock(&self) -> RwLock<T> {
        *self.lock
    }

    /// The guard was given out by a lock equal to `lock` (as values, which
    /// carry no address).
    pub open spec fn reads(&self, lock: &RwLock<T>) -> bool {
        self.read_lock() == *lock
    }

    /// The cell holding the guarded value. While this guard lives, no one
    /// writes the value.
    pub fn cell(&self) -> (r: &'a UnsafeCell<T>)
        ensures
            *r == self.read_lock().storage(),
    {
        &self.lock.elem
    }
}

impl<'a, T> RwLockWriteGuard<'a, T> {
    /// The lock the guard was given out by.
    pub closed spec fn write_lock(&self) -> RwLock<T> {
        *self.lock
    }

    /// The guard was given out by a lock equal to `lock` (as values, which
    /// carry no address).
    pub open spec fn writes(&self, lock: &RwLock<T>) -> bool {
        self.write_lock() == *lock
    }

    /// The cell holding the guarded value. While this guard lives, its holder
    /// is the only one that may read or write the value.
    pub fn cell(&self) -> (r: &'a UnsafeCell<T>)
        ensures
            *r == self.write_lock().storage(),
    {
        &self.lock.elem
    }
}

impl<'a, T> Drop for RwLockReadGuard<'a, T> {
    /// Unregisters the reader: the state word goes to [`read_released`].
    fn drop(&mut self)
        opens_invariants none
        no_unwind
    {
        sub_u64(&self.lock.state, 1);
    }
}

impl<'a, T> Drop for RwLockWriteGuard<'a, T> {
    /// Clears the write flag: the state word goes to [`write_released`].
    fn drop(&mut self)
        opens_invariants none
        no_unwind
    {
        proof {
            assert forall|word: u64| (word & MAX_READERS) == #[trigger] write_released(word) by {
                law_write_release_mask(word);
            }
        }
        and_u64(&self.lock.state, MAX_READERS);
    }
}

impl<T> RwLock<T> {
    /// The cell that holds the lock's value.
    pub closed spec fn storage(&self) -> UnsafeCell<T> {
        self.elem
    }

    /// The lock was created free: its state word was made 0, no writer and
    /// no reader.
    pub closed spec fn created_free(&self) -> bool {
        self.state == created_u64(0)
    }

    /// Creates a new `RwLock` from the given element, free
    pub fn new(elem: T) -> (r: Self)
        ensures
            r.created_free(),
    {
        Self { elem: UnsafeCell::new(elem), state: new_u64(0) }
    }

    /// Consumes `self` and returns the inner `T`
    ///
    /// Since we got `self` as an owned value, we don't need
    /// to worry about synchronization.
    pub fn into_inner(self) -> (r: T) {
        self.elem.into_inner()
    }

    /// Locks `self` for reading.
    ///
    /// The returned [RwLockReadGuard] grants read-only access to the data.
    /// The state is decided by the other threads; the reader is let in as
    /// [`acquire_read_word`] decides on the state it reads.
    ///
    /// # Errors
    /// [`RwLockError::ReadWhileWrite`] if `self` is currently locked for
    /// writing (or, impossibly in practice, already counts [`MAX_READERS`]
    /// readers).
    pub fn read(&self) -> (r: RwLockResult<RwLockReadGuard<'_, T>>)
        ensures
            r matches Ok(g) ==> g.reads(self),
            r matches Err(e) ==> e == RwLockError::ReadWhileWrite,
    {
        let step = |word: u64| -> (next: Option<u64>)
            ensures
                next == read_acquired(word),
            { acquire_read_word(word) };
        let outcome = update_u64(&self.state, Ordering::Acquire, Ordering::Relaxed, step);
        self.read_outcome(outcome)
    }

    /// What [`RwLock::read`] gives for the outcome of its update of the state
    /// word: a guard when a reader was registered, `ReadWhileWrite` when not.
    fn read_outcome(&self, outcome: Result<u64, u64>) -> (r: RwLockResult<RwLockReadGuard<'_, T>>)
        ensures
            r is Ok <==> outcome is Ok,
            r matches Ok(g) ==> g.reads(self),
            r matches Err(e) ==> e == RwLockError::ReadWhileWrite,
    {
        match outcome {
            Ok(_) => Ok(RwLockReadGuard { lock: self }),
            Err(_) => Err(RwLockError::ReadWhileWrite),
        }
    }

    /// Locks `self` for writing.
    ///
    /// The returned [RwLockWriteGuard] grants write access to the data.
    /// The state is decided by the other threads; the writer is let in as
    /// [`acquire_write_word`] decides on the state it reads, and otherwise
    /// told why by [`write_refusal_of`].
    ///
    /// # Errors
    /// [`RwLockError::WriteWhileWrite`] if `self` is locked for writing,
    /// [`RwLockError::WriteWhileRead`] if it is locked for reading.
    pub fn write(&self) -> (r: RwLockResult<RwLockWriteGuard<'_, T>>)
        ensures
            r matches Ok(g) ==> g.writes(self),
            r matches Err(e) ==> e != RwLockError::ReadWhileWrite,
    {
        let step = |word: u64| -> (next: Option<u64>)
            ensures
                next == write_acquired(word),
            { acquire_write_word(word) };
        let outcome = update_u64(&self.state, Ordering::Acquire, Ordering::Relaxed, step);
        self.write_outcome(outcome)
    }

    /// What [`RwLock::write`] gives for the outcome of its update of the
    /// state word: a guard when the writer was let in, and otherwise the
    /// refusal [`write_refusal`] gives for the word found.
    fn write_outcome(&self, outcome: Result<u64, u64>) -> (r: RwLockResult<RwLockWriteGuard<'_, T>>)
        ensures
            r is Ok <==> outcome is Ok,
            r matches Ok(g) ==> g.writes(self),
            outcome matches Err(word) ==> r matches Err(e) && e == write_refusal(word),
    {
        match outcome {
            Ok(_) => Ok(RwLockWriteGuard { lock: self }),
            Err(word) => Err(write_refusal_of(word)),
        }
    }
}

} // verus!
