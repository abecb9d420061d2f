use sync_primitives::rwlock::{
    MAX_READ_WORD, ReadStep, RwLock, WRITE_LOCKED, WriteStep, read_acquire, read_release_word,
    write_acquire, writer_should_block,
};

#[test]
fn rwlock_word_machine() {
    // Even words admit a reader, raising the count by one (two on the
    // word); odd words — writer waiting or write-locked — make it block.
    assert_eq!(read_acquire(0), ReadStep::Acquired(2));
    assert_eq!(read_acquire(4), ReadStep::Acquired(6));
    assert_eq!(read_acquire(5), ReadStep::Block(5));
    assert_eq!(read_acquire(WRITE_LOCKED), ReadStep::Block(WRITE_LOCKED));
    assert_eq!(read_acquire(MAX_READ_WORD), ReadStep::Acquired(MAX_READ_WORD + 2));

    // A writer acquires from an unlocked word (flag up or not), raises
    // the flag on an even word, and otherwise blocks.
    assert_eq!(write_acquire(0), WriteStep::Acquired);
    assert_eq!(write_acquire(1), WriteStep::Acquired);
    assert_eq!(write_acquire(4), WriteStep::RaiseFlag(5));
    assert_eq!(write_acquire(5), WriteStep::Block);
    assert_eq!(write_acquire(WRITE_LOCKED), WriteStep::Block);

    // After raising the flag a writer blocks only while the lock is held.
    assert!(writer_should_block(2));
    assert!(writer_should_block(WRITE_LOCKED));
    assert!(!writer_should_block(0));
    assert!(!writer_should_block(1));

    // A departing reader wakes a writer exactly when it was the last
    // reader and a writer was waiting.
    assert_eq!(read_release_word(3), (1, true));
    assert_eq!(read_release_word(2), (0, false));
    assert_eq!(read_release_word(5), (3, false));
}

#[test]
fn rwlock_readers_share_writer_excludes() {
    let mut l = RwLock::new(7u64);

    // Two readers hold the lock at once and both see the value.
    let r1 = l.read();
    let r2 = l.read();
    assert_eq!(*l.get(&r1), 7);
    assert_eq!(*l.get(&r2), 7);

    // A writer cannot get in while readers hold the lock: it raises the
    // writer-waiting flag instead.
    assert!(l.try_write().is_none());

    // With the flag up, new readers are refused: none overtakes the
    // waiting writer.
    assert!(l.try_read().is_none());

    // The last departing reader — with the writer waiting — triggers the
    // writer wake.
    assert!(!l.read_release(r1));
    assert!(l.read_release(r2));

    // Now the writer acquires exclusively and no reader can enter.
    let mut w = l.try_write().unwrap();
    assert_eq!(*w.get(), 7);
    w.set(9);
    l.write_release(w);

    // After the writer leaves, readers see its write.
    let r3 = l.read();
    assert_eq!(*l.get(&r3), 9);
    assert!(!l.read_release(r3));
}

#[test]
fn rwlock_write_then_write() {
    let mut l = RwLock::new(String::from("a"));
    let mut w = l.write();
    w.set(String::from("b"));
    l.write_release(w);
    let w2 = l.write();
    assert_eq!(w2.get(), "b");
    l.write_release(w2);
}
