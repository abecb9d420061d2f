use sync_primitives::arc::{
    Arc, ArcData, DowngradeStep, UpgradeStep, Weak, claim_weak_counter, claimed_unique,
    downgrade_step, upgrade_step,
};

#[test]
fn arc_lifecycle() {
    // One allocation, one strong handle, two weak handles.
    let (mut data, x) = Arc::new("hello");
    let w1 = Arc::downgrade(&x, &mut data);
    let w2 = Arc::downgrade(&x, &mut data);

    // While the strong handle lives, an upgrade succeeds and reads the payload.
    let y = w1.upgrade(&mut data).unwrap();
    assert_eq!(*Arc::get(&y, &data), "hello");
    assert_eq!(*Arc::get(&x, &data), "hello");

    // Dropping the upgraded handle is not the last strong drop: the payload
    // is not handed out (its destructor has not run).
    assert!(Arc::drop(y, &mut data).is_none());

    // The payload still lives, so the other weak handle still upgrades.
    let z = w2.upgrade(&mut data).unwrap();
    assert!(Arc::drop(z, &mut data).is_none());

    // Dropping the last strong handle hands the payload out, exactly once.
    assert_eq!(Arc::drop(x, &mut data), Some("hello"));

    // The payload is gone: upgrading now fails.
    assert!(w2.upgrade(&mut data).is_none());
    assert!(w1.upgrade(&mut data).is_none());

    // The allocation is freed by the very last handle, and only then.
    assert!(!Weak::drop(w1, &mut data));
    assert!(Weak::drop(w2, &mut data));
}

#[test]
fn arc_unique_and_replace() {
    let (mut data, a) = Arc::new(1u64);
    assert!(Arc::is_unique(&a, &data));

    let b = Arc::clone(&a, &mut data);
    assert!(!Arc::is_unique(&a, &data));
    assert!(Arc::drop(b, &mut data).is_none());
    assert!(Arc::is_unique(&a, &data));

    let prev = Arc::replace(&a, &mut data, 9);
    assert_eq!(prev, 1);
    assert_eq!(*Arc::get(&a, &data), 9);

    // A weak handle also breaks uniqueness.
    let w = Arc::downgrade(&a, &mut data);
    assert!(!Arc::is_unique(&a, &data));
    assert!(!Weak::drop(w, &mut data));
    assert!(Arc::is_unique(&a, &data));

    assert_eq!(Arc::drop(a, &mut data), Some(9));
}

#[test]
fn arc_weak_clone() {
    let (mut data, a) = Arc::new(3u8);
    let w1 = Arc::downgrade(&a, &mut data);
    let w2 = Weak::clone(&w1, &mut data);
    assert_eq!(Arc::drop(a, &mut data), Some(3));
    assert!(w1.upgrade(&mut data).is_none());
    assert!(!Weak::drop(w1, &mut data));
    assert!(Weak::drop(w2, &mut data));
}

#[test]
fn arc_counter_steps() {
    // A downgrade spins while `get_mut`'s claim stands, else raises the
    // weak counter.
    assert_eq!(downgrade_step(usize::MAX), DowngradeStep::Spin);
    assert_eq!(downgrade_step(1), DowngradeStep::Cas(2));
    assert_eq!(downgrade_step(7), DowngradeStep::Cas(8));

    // An upgrade gives up once the strong count is zero, else raises it.
    assert_eq!(upgrade_step(0), UpgradeStep::Dead);
    assert_eq!(upgrade_step(3), UpgradeStep::Cas(4));

    // The claim succeeds only from a weak counter of one.
    assert_eq!(claim_weak_counter(1), (usize::MAX, true));
    assert_eq!(claim_weak_counter(2), (2, false));
    assert_eq!(claim_weak_counter(usize::MAX), (usize::MAX, false));

    // With the claim held, exclusivity needs a strong count of one.
    assert!(claimed_unique(1));
    assert!(!claimed_unique(2));
}
