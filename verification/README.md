# syncrs

Spinlock-based synchronization primitives: a spin lock, a mutex, a
read-write lock, a counting semaphore, a condition variable, one-time
initialization (`Once`, `OnceLock`, `LazyLock`) and the reference counts of
an atomically counted pointer.

## Layout

- `src/` is the verified library. Each primitive lives in its own module.
  The decisions a primitive takes on the words it reads (may a reader or
  writer take the lock, how many permits are left, how many waiters are
  woken, may a weak pointer be upgraded, which step a waiter is at) are plain
  functions whose results are stated exactly, with the laws that relate them
  proved beside them. Operations that wait for another thread are offered as
  one attempt (`try_lock`, `try_dec`, `try_call_once`, `enroll`/`try_wake`,
  `begin_wait`).
- `app/` is ordinary Rust on top of the library: the waiting operations that
  repeat those attempts (`lock`, `dec`, `wait`, `wait_while`, `call_once`),
  access to the value behind a guard (through the guard's `UnsafeCell`, with
  the `Guarded` and `GuardedMut` traits in place of `Deref`), the
  shared-reference operations of `OnceLock` and `LazyLock`, the `Shared`
  wrapper that makes the value-carrying primitives `Sync`, and the `Arc` and
  `Weak` pointers, which allocate through `allocator_api2`.
- `tests/` exercises the library.

## Behaviour

- The library's own value-carrying types are not `Sync`; `app`'s `Shared`
  wrapper shares them between threads.
- Constructors are not `const`; `Mutex` and `RwLock` hold sized values.
- Guards reach their value through `Guarded`/`GuardedMut`; `MutexGuard`
  offers no `Debug`, `Display`, `PartialEq` or `PartialOrd`.
- `Semaphore::try_dec(n)` returns `None` when fewer than `n` permits are
  there.
- A condition variable registers a waiter before releasing its guard, so a
  notification given once the lock is free reaches the waiter.
- `Once::is_initialized` reads the flag without waiting for a running
  initialization; resetting (`try_reset`, repeated by `reset`) takes the
  lock, so it never lands inside one.
- An `RwLock` counts readers and the writer in one word; a read is refused
  like a read during a write when the word counts the most readers it can.
- A `OnceLock` drops its element, and a `LazyLock` its unused
  initialization function, when dropped.
- An `Arc` allocation's weak count holds one reference for all strong
  pointers together, so the allocation is freed exactly once.
