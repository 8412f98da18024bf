use syncrs::rwlock::{
    acquire_read_word, acquire_write_word, write_refusal_of, RwLockError, MAX_READERS, WRITE_FLAG,
};
use syncrs::RwLock;

#[test]
fn rwlock_many_readers_at_once() {
    let lock = RwLock::new(3);
    let r1 = lock.read();
    let r2 = lock.read();
    assert!(r1.is_ok());
    assert!(r2.is_ok());
}

#[test]
fn rwlock_write_refused_while_read() {
    let lock = RwLock::new(3);
    let r1 = lock.read();
    assert!(r1.is_ok());
    assert!(matches!(lock.write(), Err(RwLockError::WriteWhileRead)));
    drop(r1);
    assert!(lock.write().is_ok());
}

#[test]
fn rwlock_read_refused_while_written() {
    let lock = RwLock::new(3);
    let w = lock.write();
    assert!(w.is_ok());
    assert!(matches!(lock.read(), Err(RwLockError::ReadWhileWrite)));
    assert!(matches!(lock.write(), Err(RwLockError::WriteWhileWrite)));
    drop(w);
    assert!(lock.read().is_ok());
}

#[test]
fn rwlock_guards_release_on_drop() {
    let lock = RwLock::new(String::from("x"));
    for _ in 0..3 {
        let readers = [lock.read(), lock.read(), lock.read()];
        assert!(readers.iter().all(|r| r.is_ok()));
        assert!(matches!(lock.write(), Err(RwLockError::WriteWhileRead)));
    }
    {
        let _w = lock.write().ok().unwrap();
    }
    assert_eq!(lock.into_inner(), "x");
}

#[test]
fn rwlock_read_word_steps() {
    assert_eq!(acquire_read_word(0), Some(1));
    assert_eq!(acquire_read_word(41), Some(42));
    assert_eq!(acquire_read_word(WRITE_FLAG), None);
    assert_eq!(acquire_read_word(MAX_READERS), None);
}

#[test]
fn rwlock_write_word_steps() {
    assert_eq!(acquire_write_word(0), Some(WRITE_FLAG));
    assert_eq!(acquire_write_word(3), None);
    assert_eq!(acquire_write_word(WRITE_FLAG), None);
    assert_eq!(write_refusal_of(WRITE_FLAG), RwLockError::WriteWhileWrite);
    assert_eq!(write_refusal_of(2), RwLockError::WriteWhileRead);
}

#[test]
fn rwlock_release_undoes_acquire_on_words() {
    let read = acquire_read_word(6).unwrap();
    assert_eq!(read - 1, 6);
    let written = acquire_write_word(0).unwrap();
    assert_eq!(written & MAX_READERS, 0);
    assert_eq!((WRITE_FLAG | 5) & MAX_READERS, 5);
}

#[test]
fn rwlock_writer_excludes_everyone_on_words() {
    let written = acquire_write_word(0).unwrap();
    assert_eq!(acquire_read_word(written), None);
    assert_eq!(acquire_write_word(written), None);
    let read = acquire_read_word(0).unwrap();
    assert_eq!(acquire_write_word(read), None);
    assert_eq!(write_refusal_of(read), RwLockError::WriteWhileRead);
}
