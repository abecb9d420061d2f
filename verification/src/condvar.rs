//! A condition variable for "wait until condition" protocols over a
//! [`Mutex`](crate::mutex::Mutex).
//!
//! The condvar holds a generation counter, bumped on every notify, and a
//! count of the threads currently parked in a wait. A wait is three steps:
//! `wait_begin` records the waiter, reads the generation counter and only
//! then releases the mutex; the waiter blocks on the counter word while it
//! still equals the value read (`should_block`); `wait_end` unrecords the
//! waiter and reacquires the mutex. Because the counter is read before the
//! mutex is released, a notify issued after that read — even before the
//! waiter reaches the blocking call — bumps the counter away from the value
//! read, the block falls through, and no wakeup is missed. Notifies skip
//! the counter bump and the wake call entirely while nobody waits.
//!
//! Blocking may also end spuriously; a caller re-checks its condition in a
//! loop, as the contracts here assume nothing about why a block ended.

use crate::mutex::{CONTENDED, Mutex, MutexGuard, UNLOCKED, after_lock, after_unlock};
use vstd::prelude::*;

verus! {

/// State of a condition variable as contracts see it.
pub struct CondvarView {
    pub generation: u32,
    pub num_waiters: usize,
}

/// A notify bumps the generation counter by one, wrapping around.
pub open spec fn bump(g: u32) -> u32 {
    if g == u32::MAX {
        0
    } else {
        (g + 1) as u32
    }
}

/// What a notify does: while at least one waiter is recorded, bump the
/// generation counter and wake; with no waiter recorded, do nothing at
/// all.
pub open spec fn spec_notify(c: CondvarView) -> (CondvarView, bool) {
    if c.num_waiters > 0 {
        (CondvarView { generation: bump(c.generation), num_waiters: c.num_waiters }, true)
    } else {
        (c, false)
    }
}

/// Whether a waiter that read `observed` still blocks: only while the
/// counter has not moved since the read.
pub open spec fn spec_should_block(c: CondvarView, observed: u32) -> bool {
    c.generation == observed
}

/// A condition variable: a generation counter and a waiter count.
pub struct Condvar {
    generation: u32,
    num_waiters: usize,
}

impl View for Condvar {
    type V = CondvarView;

    closed spec fn view(&self) -> CondvarView {
        CondvarView { generation: self.generation, num_waiters: self.num_waiters }
    }
}

impl Condvar {
    /// A new condvar has generation zero and no waiters.
    pub fn new() -> (r: Condvar)
        ensures
            r@.generation == 0,
            r@.num_waiters == 0,
    {
        Condvar { generation: 0, num_waiters: 0 }
    }

    /// Notify one waiter. Returns whether one thread blocked on the
    /// generation counter must be woken: exactly when a waiter was
    /// recorded, so notifying an idle condvar costs no wake call.
    pub fn notify_one(&mut self) -> (wake_one: bool)
        ensures
            (final(self)@, wake_one) == spec_notify(old(self)@),
    {
        if self.num_waiters > 0 {
            self.generation = if self.generation == u32::MAX {
                0
            } else {
                self.generation + 1
            };
            true
        } else {
            false
        }
    }

    /// Notify every waiter. Returns whether all threads blocked on the
    /// generation counter must be woken: exactly when a waiter was
    /// recorded.
    pub fn notify_all(&mut self) -> (wake_all: bool)
        ensures
            (final(self)@, wake_all) == spec_notify(old(self)@),
    {
        if self.num_waiters > 0 {
            self.generation = if self.generation == u32::MAX {
                0
            } else {
                self.generation + 1
            };
            true
        } else {
            false
        }
    }

    /// First step of a wait: record this waiter, read the generation
    /// counter, and only then release the mutex.
    ///
    /// Returns the counter value read and whether the release must wake
    /// one thread blocked on the mutex word. The waiter then blocks on the
    /// counter word while [`should_block`](Condvar::should_block) holds of
    /// the value it reads there.
    pub fn wait_begin<T>(&mut self, mutex: &mut Mutex<T>, guard: MutexGuard<T>) -> (r: (
        u32,
        bool,
    ))
        requires
            old(self)@.num_waiters < usize::MAX,
            old(mutex).wf(),
            old(mutex)@.state != UNLOCKED,
            guard.issuer() == old(mutex)@.id,
        ensures
            final(self)@.num_waiters == old(self)@.num_waiters + 1,
            final(self)@.generation == old(self)@.generation,
            r.0 == old(self)@.generation,
            final(mutex).wf(),
            final(mutex)@ == after_unlock(old(mutex)@, guard@),
            r.1 == (old(mutex)@.state == CONTENDED),
    {
        self.num_waiters = self.num_waiters + 1;
        let observed = self.generation;
        let wake = mutex.unlock(guard);
        (observed, wake)
    }

    /// Whether a waiter that read `observed` from the generation counter
    /// still blocks: only while the counter has not moved since the read.
    /// Any notify issued after the read moves the counter, so the block
    /// falls through instead of missing the wakeup.
    pub fn should_block(&self, observed: u32) -> (r: bool)
        ensures
            r == spec_should_block(self@, observed),
    {
        self.generation == observed
    }

    /// Last step of a wait, after blocking ended: unrecord this waiter and
    /// reacquire the mutex.
    pub fn wait_end<T>(&mut self, mutex: &mut Mutex<T>) -> (g: MutexGuard<T>)
        requires
            old(self)@.num_waiters > 0,
            old(mutex).wf(),
            old(mutex)@.state == UNLOCKED,
        ensures
            final(self)@.num_waiters == old(self)@.num_waiters - 1,
            final(self)@.generation == old(self)@.generation,
            final(mutex).wf(),
            final(mutex)@ == after_lock(old(mutex)@),
            old(mutex)@.stored == Some(g@),
            g.issuer() == old(mutex)@.id,
    {
        self.num_waiters = self.num_waiters - 1;
        mutex.lock()
    }
}

/// The generation counter after `k` successive bumps.
pub open spec fn bump_k(g: u32, k: nat) -> u32
    decreases k,
{
    if k == 0 {
        g
    } else {
        bump(bump_k(g, (k - 1) as nat))
    }
}

/// Fewer bumps than the counter's full period wrap it around at most
/// once.
proof fn lemma_bump_k_value(g: u32, k: nat)
    requires
        k < 0x1_0000_0000,
    ensures
        bump_k(g, k) == if g + k < 0x1_0000_0000 {
            g + k
        } else {
            g + k - 0x1_0000_0000
        },
    decreases k,
{
    if k > 0 {
        lemma_bump_k_value(g, (k - 1) as nat);
    }
}

/// Any run of notifies shorter than the counter's full period leaves the
/// counter away from a value read before it: a waiter that read the
/// counter is missed by none of them, however many pile up between its
/// read and its blocking call.
pub proof fn lemma_notifies_stay_apart(g: u32, k: nat)
    requires
        1 <= k < 0x1_0000_0000,
    ensures
        bump_k(g, k) != g,
{
    lemma_bump_k_value(g, k);
}

/// No missed wakeup: while a waiter is recorded — as it is from
/// `wait_begin` until `wait_end` — a notify bumps the generation counter
/// away from any value read before it, so a waiter that read `observed`
/// and then sees the notified counter does not block. A notify issued
/// between the read and the blocking call is therefore never lost: the
/// blocking call falls through at once.
pub proof fn lemma_no_missed_wakeup(c: CondvarView, observed: u32)
    requires
        c.num_waiters > 0,
        spec_should_block(c, observed),
    ensures
        spec_notify(c).1,
        !spec_should_block(spec_notify(c).0, observed),
{
}

} // verus!
