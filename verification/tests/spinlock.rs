use sync_primitives::spinlock::SpinLock;

#[test]
fn spinlock_guards_value() {
    let mut l = SpinLock::new(vec![1u32, 2]);
    let mut g = l.lock();
    assert_eq!(*g.get(), vec![1, 2]);
    g.set(vec![9]);
    l.unlock(g);

    let g = l.lock();
    assert_eq!(*g.get(), vec![9]);
    // Taking the value out of the guard keeps the lock held for good.
    let v = g.into_value();
    assert_eq!(v, vec![9]);
}

#[test]
fn spinlock_cycles_keep_count() {
    let mut l = SpinLock::new(0u32);
    for _ in 0..1000 {
        let mut g = l.lock();
        let v = *g.get();
        g.set(v + 1);
        l.unlock(g);
    }
    let g = l.lock();
    assert_eq!(*g.get(), 1000);
    l.unlock(g);
}
