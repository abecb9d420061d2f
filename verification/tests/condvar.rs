use sync_primitives::condvar::Condvar;
use sync_primitives::mutex::Mutex;

#[test]
fn condvar_notify_idle_is_free() {
    // With nobody waiting, a notify does nothing and wakes nobody.
    let mut cv = Condvar::new();
    assert!(!cv.notify_one());
    assert!(!cv.notify_all());
}

#[test]
fn condvar_notify_after_read_is_not_missed() {
    let mut cv = Condvar::new();
    let mut m = Mutex::new(0u32);

    // A waiter records itself, reads the generation counter and releases
    // the lock.
    let g = m.lock();
    let (observed, _wake) = cv.wait_begin(&mut m, g);
    // It would block: the counter has not moved since the read.
    assert!(cv.should_block(observed));

    // A notify now — before the waiter reaches its blocking call — bumps
    // the counter, so the block falls through instead of being missed.
    assert!(cv.notify_one());
    assert!(!cv.should_block(observed));

    let g = cv.wait_end(&mut m);
    m.unlock(g);
}

#[test]
fn condvar_wait_loop_sees_value() {
    // A waiter loops waiting while the value is under 100; the notifier
    // sets 123 under the lock and notifies once; the waiter exits with
    // 123 after few wakeups.
    let mut cv = Condvar::new();
    let mut m = Mutex::new(0u32);
    let mut wakeups = 0u32;
    let mut notified = false;

    let mut g = m.lock();
    while *g.get() < 100 {
        let (observed, _wake) = cv.wait_begin(&mut m, g);
        if !notified {
            let mut g2 = m.lock();
            g2.set(123);
            m.unlock(g2);
            assert!(cv.notify_one());
            notified = true;
        }
        // The notify came after the read: the waiter must not stay blocked.
        assert!(!cv.should_block(observed));
        g = cv.wait_end(&mut m);
        wakeups += 1;
    }
    assert_eq!(*g.get(), 123);
    m.unlock(g);
    assert!(wakeups < 10);
}

#[test]
fn condvar_notify_all_with_waiter() {
    let mut cv = Condvar::new();
    let mut m = Mutex::new(false);
    let g = m.lock();
    let (observed, _wake) = cv.wait_begin(&mut m, g);
    assert!(cv.notify_all());
    assert!(!cv.should_block(observed));
    let mut g = cv.wait_end(&mut m);
    g.set(true);
    m.unlock(g);
}
