use sync_primitives::mutex::{
    CONTENDED, LOCKED, Mutex, SPIN_LIMIT, UNLOCKED, contended_acquire, keep_spinning,
    release_word, try_acquire,
};

#[test]
fn mutex_word_machine() {
    // The acquisition compare-and-swap takes the lock only from UNLOCKED.
    assert_eq!(try_acquire(UNLOCKED), (LOCKED, true));
    assert_eq!(try_acquire(LOCKED), (LOCKED, false));
    assert_eq!(try_acquire(CONTENDED), (CONTENDED, false));

    // The contended path spins only while the lock is held without
    // recorded waiters, and only for a bounded number of rounds.
    assert!(keep_spinning(LOCKED, 0));
    assert!(keep_spinning(LOCKED, SPIN_LIMIT - 1));
    assert!(!keep_spinning(LOCKED, SPIN_LIMIT));
    assert!(!keep_spinning(UNLOCKED, 0));
    assert!(!keep_spinning(CONTENDED, 0));

    // The blocking swap always records waiters and acquires only from
    // UNLOCKED.
    assert_eq!(contended_acquire(UNLOCKED), (CONTENDED, true));
    assert_eq!(contended_acquire(LOCKED), (CONTENDED, false));
    assert_eq!(contended_acquire(CONTENDED), (CONTENDED, false));

    // Release wakes one waiter exactly when waiters were recorded.
    assert_eq!(release_word(LOCKED), (UNLOCKED, false));
    assert_eq!(release_word(CONTENDED), (UNLOCKED, true));
}

#[test]
fn mutex_guards_value() {
    let mut m = Mutex::new(41u64);
    let mut g = m.lock();
    assert_eq!(*g.get(), 41);
    g.set(42);
    // Nobody was recorded as blocked, so the release wakes no one.
    assert!(!m.unlock(g));
    let g = m.lock();
    assert_eq!(*g.get(), 42);
    assert!(!m.unlock(g));
}

#[test]
fn mutex_increment_cycles() {
    // Four rounds of five million lock-increment-unlock cycles end at
    // exactly twenty million: no update is lost.
    let mut m = Mutex::new(0u64);
    for _ in 0..4 {
        for _ in 0..5_000_000 {
            let mut g = m.lock();
            let v = *g.get();
            g.set(v + 1);
            m.unlock(g);
        }
    }
    let g = m.lock();
    assert_eq!(*g.get(), 20_000_000);
    m.unlock(g);
}
