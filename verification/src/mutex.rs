//! A mutual-exclusion lock with a spin-then-block contended path.
//!
//! The atomic word of the lock has three states: `UNLOCKED`, `LOCKED` (held,
//! nobody blocked) and `CONTENDED` (held, and at least one thread recorded
//! itself as blocked). The word-level functions below give the exact
//! transition of each atomic step of the algorithm — the acquisition
//! compare-and-swap, the bounded spin of the contended path, the swap to
//! `CONTENDED` before blocking, and the releasing swap that decides whether
//! a waiter must be woken. A runner drives them against a real atomic word
//! and blocks on it, with expected value `CONTENDED`, whenever
//! `contended_acquire` reports failure; release wakes one blocked thread
//! exactly when the word said waiters were recorded, so an uncontended
//! unlock costs no wake call.
//!
//! The `Mutex` type is the exclusive-access model of the whole lock: the
//! guarded value moves into the guard on acquisition and back on release,
//! so a live guard is the sole witness of access to it.

use vstd::prelude::*;

verus! {

/// The lock is free.
pub const UNLOCKED: u32 = 0;

/// The lock is held and no thread has recorded itself as blocked.
pub const LOCKED: u32 = 1;

/// The lock is held and at least one thread recorded itself as blocked.
pub const CONTENDED: u32 = 2;

/// How many times the contended path re-reads the word before it gives up
/// spinning and blocks; short critical sections are absorbed without a
/// syscall.
pub const SPIN_LIMIT: u32 = 100;

/// A word the lock's state machine can be in.
pub open spec fn valid_word(s: u32) -> bool {
    s == UNLOCKED || s == LOCKED || s == CONTENDED
}

/// What the acquisition compare-and-swap does to an observed word: it
/// takes the lock only from `UNLOCKED`, and then leaves it `LOCKED`.
pub open spec fn spec_try_acquire(s: u32) -> (u32, bool) {
    if s == UNLOCKED {
        (LOCKED, true)
    } else {
        (s, false)
    }
}

/// Whether the contended path keeps spinning: only while the lock is held
/// without recorded waiters, and only for `SPIN_LIMIT` rounds.
pub open spec fn spec_keep_spinning(s: u32, spins: u32) -> bool {
    s == LOCKED && spins < SPIN_LIMIT
}

/// What the blocking path's swap to `CONTENDED` does: the word becomes
/// `CONTENDED` whatever it was, and the lock is acquired exactly when the
/// swapped-out word was `UNLOCKED`. On failure the thread must block on
/// the word while it reads `CONTENDED`, then retry.
pub open spec fn spec_contended_acquire(s: u32) -> (u32, bool) {
    (CONTENDED, s == UNLOCKED)
}

/// What release does: the word becomes `UNLOCKED`, and one blocked thread
/// must be woken exactly when the swapped-out word recorded waiters.
pub open spec fn spec_release(s: u32) -> (u32, bool) {
    (UNLOCKED, s == CONTENDED)
}

/// The acquisition compare-and-swap, as a transition on the observed word.
pub fn try_acquire(s: u32) -> (r: (u32, bool))
    ensures
        r == spec_try_acquire(s),
{
    if s == UNLOCKED {
        (LOCKED, true)
    } else {
        (s, false)
    }
}

/// The spin decision of the contended path.
pub fn keep_spinning(s: u32, spins: u32) -> (r: bool)
    ensures
        r == spec_keep_spinning(s, spins),
{
    s == LOCKED && spins < SPIN_LIMIT
}

/// The swap to `CONTENDED`, as a transition on the swapped-out word.
pub fn contended_acquire(s: u32) -> (r: (u32, bool))
    ensures
        r == spec_contended_acquire(s),
{
    (CONTENDED, s == UNLOCKED)
}

/// The releasing swap, as a transition on the swapped-out word.
pub fn release_word(s: u32) -> (r: (u32, bool))
    ensures
        r == spec_release(s),
{
    (UNLOCKED, s == CONTENDED)
}

/// Mutual exclusion at the word level: from a valid word, once either
/// acquisition step succeeds, no further acquisition step can succeed on
/// the resulting word, by either path, until a release runs; and after a
/// release the lock can be taken again.
pub proof fn lemma_word_mutual_exclusion(s: u32)
    requires
        valid_word(s),
    ensures
        spec_try_acquire(s).1 ==> !spec_try_acquire(spec_try_acquire(s).0).1,
        spec_try_acquire(s).1 ==> !spec_contended_acquire(spec_try_acquire(s).0).1,
        spec_contended_acquire(s).1 ==> !spec_try_acquire(spec_contended_acquire(s).0).1,
        spec_contended_acquire(s).1 ==> !spec_contended_acquire(spec_contended_acquire(s).0).1,
        spec_try_acquire(spec_release(s).0).1,
{
}

/// A releasing swap wakes a waiter if and only if some thread had recorded
/// itself as blocked, so an uncontended unlock never issues a wake call.
pub proof fn lemma_release_wakes_iff_contended(s: u32)
    requires
        valid_word(s),
    ensures
        spec_release(s).1 <==> s == CONTENDED,
{
}

/// State of a mutex as contracts see it: the word of its state machine,
/// the value it stores while nobody holds it, and the ghost identity of
/// this lock instance, which its guards carry.
pub struct MutexView<T> {
    pub state: u32,
    pub stored: Option<T>,
    pub id: int,
}

impl<T> MutexView<T> {
    /// Well-formed: the word is one of the machine's three states, and the
    /// value is stored exactly while the lock is free.
    pub open spec fn wf(self) -> bool {
        valid_word(self.state) && (self.state == UNLOCKED <==> self.stored.is_some())
    }
}

/// The view a mutex has right after an acquisition: held with no recorded
/// waiters, its value out in the guard.
pub open spec fn after_lock<T>(v: MutexView<T>) -> MutexView<T> {
    MutexView { state: LOCKED, stored: None, id: v.id }
}

/// The view a mutex has right after a release that stores `g` back.
pub open spec fn after_unlock<T>(v: MutexView<T>, g: T) -> MutexView<T> {
    MutexView { state: UNLOCKED, stored: Some(g), id: v.id }
}

/// A mutual-exclusion lock protecting one value of type `T`.
pub struct Mutex<T> {
    state: u32,
    value: Option<T>,
    id: Ghost<int>,
}

/// Witness that its holder acquired a `Mutex`; it carries the guarded
/// value for the duration of the critical section, and the identity of
/// the mutex that issued it, so no other mutex accepts it at release.
pub struct MutexGuard<T> {
    value: T,
    lock_id: Ghost<int>,
}

impl<T> View for Mutex<T> {
    type V = MutexView<T>;

    closed spec fn view(&self) -> MutexView<T> {
        MutexView { state: self.state, stored: self.value, id: self.id@ }
    }
}

impl<T> View for MutexGuard<T> {
    type V = T;

    closed spec fn view(&self) -> T {
        self.value
    }
}

impl<T> MutexGuard<T> {
    /// The identity of the mutex that issued this guard.
    pub closed spec fn issuer(&self) -> int {
        self.lock_id@
    }
}

impl<T> Mutex<T> {
    pub open spec fn wf(&self) -> bool {
        self@.wf()
    }

    /// A new mutex starts unlocked, storing the given value. Nothing is
    /// promised of its identity, so no guard of another mutex can be
    /// shown to be this one's.
    pub fn new(value: T) -> (r: Mutex<T>)
        ensures
            r.wf(),
            r@.state == UNLOCKED,
            r@.stored == Some(value),
    {
        Mutex { state: UNLOCKED, value: Some(value), id: Ghost(0) }
    }

    /// Acquire the lock and take the guarded value.
    ///
    /// Concurrently the acquisition compare-and-swap may fail and enter the
    /// spin-then-block path; with exclusive access it succeeds at once, and
    /// a holder asking again would block forever, so the lock must be free.
    pub fn lock(&mut self) -> (g: MutexGuard<T>)
        requires
            old(self).wf(),
            old(self)@.state == UNLOCKED,
        ensures
            final(self).wf(),
            final(self)@ == after_lock(old(self)@),
            old(self)@.stored == Some(g@),
            g.issuer() == old(self)@.id,
    {
        let (n, _acquired) = try_acquire(self.state);
        self.state = n;
        let v = self.value.take();
        MutexGuard { value: v.unwrap(), lock_id: Ghost(self.id@) }
    }

    /// Release the lock, storing the guard's value again.
    ///
    /// Returns whether one blocked thread must be woken: exactly when the
    /// word had recorded waiters, so an uncontended unlock costs no wake
    /// call.
    pub fn unlock(&mut self, g: MutexGuard<T>) -> (wake_one: bool)
        requires
            old(self).wf(),
            old(self)@.state != UNLOCKED,
            g.issuer() == old(self)@.id,
        ensures
            final(self).wf(),
            final(self)@ == after_unlock(old(self)@, g@),
            wake_one == (old(self)@.state == CONTENDED),
    {
        let (n, wake) = release_word(self.state);
        self.state = n;
        self.value = Some(g.into_value());
        wake
    }
}

impl<T> MutexGuard<T> {
    /// Read the guarded value.
    pub fn get(&self) -> (r: &T)
        ensures
            *r == self@,
    {
        &self.value
    }

    /// Overwrite the guarded value.
    pub fn set(&mut self, v: T)
        ensures
            final(self)@ == v,
            final(self).issuer() == old(self).issuer(),
    {
        self.value = v;
    }

    /// Give up the guard and keep the value; the lock stays held.
    pub fn into_value(self) -> (r: T)
        ensures
            r == self@,
    {
        self.value
    }
}

/// One lock-increment-unlock cycle on a mutex guarding a counter, as the
/// contracts of `lock` and `unlock` describe it.
pub open spec fn increment_cycle(v: MutexView<u64>) -> MutexView<u64> {
    after_unlock(after_lock(v), (v.stored.unwrap() + 1) as u64)
}

/// `n` lock-increment-unlock cycles in sequence.
pub open spec fn run_increment_cycles(v: MutexView<u64>, n: nat) -> MutexView<u64>
    decreases n,
{
    if n == 0 {
        v
    } else {
        run_increment_cycles(increment_cycle(v), (n - 1) as nat)
    }
}

/// No lost updates: any number of lock-increment-unlock cycles on a mutex
/// leaves the counter raised by exactly that number, and the lock free.
/// Because every cycle holds the lock across its whole read-modify-write —
/// the guard is the sole witness of access to the counter — any
/// interleaving of cycles across threads is some serialization of them, so
/// `n` threads each performing `m` cycles end at exactly `n * m` more than
/// the start.
pub proof fn lemma_increment_cycles_count(v: MutexView<u64>, n: nat)
    requires
        v.wf(),
        v.state == UNLOCKED,
        v.stored.unwrap() + n <= u64::MAX,
    ensures
        run_increment_cycles(v, n).state == UNLOCKED,
        run_increment_cycles(v, n).stored == Some((v.stored.unwrap() + n) as u64),
    decreases n,
{
    if n > 0 {
        lemma_increment_cycles_count(increment_cycle(v), (n - 1) as nat);
    }
}

} // verus!
