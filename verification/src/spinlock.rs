//! A test-and-set spin lock protecting one value.
//!
//! The atomic word of the lock is a single flag: `false` for unlocked,
//! `true` for held. Acquisition is a test-and-set of that flag; release is
//! a store of `false`. In the exclusive-access model the protected value
//! moves into the guard on acquisition and back on release, so a live
//! guard is, at the type level, the sole witness of access to the value.

use vstd::prelude::*;

verus! {

/// State of a spin lock as contracts see it: whether it is held, the
/// value it stores while nobody holds it, and the ghost identity of this
/// lock instance, which its guards carry.
pub struct SpinLockView<T> {
    pub locked: bool,
    pub stored: Option<T>,
    pub id: int,
}

/// A test-and-set lock protecting one value of type `T`.
pub struct SpinLock<T> {
    locked: bool,
    value: Option<T>,
    id: Ghost<int>,
}

/// Witness that its holder acquired a `SpinLock`; it carries the protected
/// value for the duration of the critical section, and the identity of
/// the lock that issued it, so no other lock accepts it at release.
pub struct Guard<T> {
    value: T,
    lock_id: Ghost<int>,
}

impl<T> View for SpinLock<T> {
    type V = SpinLockView<T>;

    closed spec fn view(&self) -> SpinLockView<T> {
        SpinLockView { locked: self.locked, stored: self.value, id: self.id@ }
    }
}

impl<T> View for Guard<T> {
    type V = T;

    closed spec fn view(&self) -> T {
        self.value
    }
}

impl<T> Guard<T> {
    /// The identity of the lock that issued this guard.
    pub closed spec fn issuer(&self) -> int {
        self.lock_id@
    }
}

impl<T> SpinLock<T> {
    /// Well-formed: the value is stored exactly while nobody holds the lock.
    pub open spec fn wf(&self) -> bool {
        self@.locked <==> self@.stored.is_none()
    }

    /// A new lock starts unlocked, storing the given value. Nothing is
    /// promised of its identity, so no guard of another lock can be shown
    /// to be this one's.
    pub fn new(value: T) -> (r: SpinLock<T>)
        ensures
            r.wf(),
            !r@.locked,
            r@.stored == Some(value),
    {
        SpinLock { locked: false, value: Some(value), id: Ghost(0) }
    }

    /// Acquire the lock and take the protected value.
    ///
    /// Concurrently this is a test-and-set loop; with exclusive access the
    /// set succeeds at once, and a holder asking again would spin forever,
    /// so the lock must not already be held.
    pub fn lock(&mut self) -> (g: Guard<T>)
        requires
            old(self).wf(),
            !old(self)@.locked,
        ensures
            final(self).wf(),
            final(self)@.locked,
            final(self)@.id == old(self)@.id,
            old(self)@.stored == Some(g@),
            g.issuer() == old(self)@.id,
    {
        self.locked = true;
        let v = self.value.take();
        Guard { value: v.unwrap(), lock_id: Ghost(self.id@) }
    }

    /// Release the lock, storing the guard's value again.
    pub fn unlock(&mut self, g: Guard<T>)
        requires
            old(self).wf(),
            old(self)@.locked,
            g.issuer() == old(self)@.id,
        ensures
            final(self).wf(),
            !final(self)@.locked,
            final(self)@.id == old(self)@.id,
            final(self)@.stored == Some(g@),
    {
        self.value = Some(g.into_value());
        self.locked = false;
    }
}

impl<T> Guard<T> {
    /// Read the protected value.
    pub fn get(&self) -> (r: &T)
        ensures
            *r == self@,
    {
        &self.value
    }

    /// Overwrite the protected value.
    pub fn set(&mut self, v: T)
        ensures
            final(self)@ == v,
            final(self).issuer() == old(self).issuer(),
    {
        self.value = v;
    }

    /// Give up the guard and keep the value; the lock stays held.
    pub fn into_value(self) -> (r: T)
        ensures
            r == self@,
    {
        self.value
    }
}

} // verus!
