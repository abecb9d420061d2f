//! A reader-writer lock with writer-starvation avoidance.
//!
//! The atomic word packs the whole reader/writer state: an even word is
//! twice the count of readers holding the lock; an odd word additionally
//! records that a writer is waiting, which blocks new readers; the all-ones
//! word `WRITE_LOCKED` means one writer holds the lock exclusively. A
//! second word, the writer wake counter, is a generation counter bumped
//! whenever a writer should be woken: waking writers through a dedicated
//! counter instead of the state word closes the missed-wakeup window
//! between a reader's releasing decrement and a writer's block.
//!
//! The word-level functions give the exact transition of each atomic step:
//! one iteration of the read path (acquire or block on the state word),
//! one iteration of the write path (acquire, raise the writer-waiting
//! flag, or block on the wake counter), and the releasing decrements with
//! their wake decisions. The `RwLock` type is the exclusive-access model
//! of the whole lock: a writer moves the value into its guard, readers
//! share it in place while their count is recorded in the word.

use vstd::prelude::*;

verus! {

/// The word that means one writer holds the lock.
pub const WRITE_LOCKED: u32 = u32::MAX;

/// The largest word from which a reader may still acquire: a safety limit
/// on the encodable reader count, keeping every reachable word a valid
/// encoding with room for the writer-waiting flag.
pub const MAX_READ_WORD: u32 = u32::MAX - 5;

/// A word the lock's state machine can be in: write-locked, or an
/// encoding of reader count and writer-waiting flag with room left below
/// the sentinel.
pub open spec fn valid_rw_word(s: u32) -> bool {
    s == WRITE_LOCKED || s <= u32::MAX - 2
}

/// Whether the word records a writer holding the lock.
pub open spec fn is_write_locked(s: u32) -> bool {
    s == WRITE_LOCKED
}

/// Whether the word records a waiting writer blocking new readers.
pub open spec fn writer_waiting(s: u32) -> bool {
    s % 2 == 1 && s != WRITE_LOCKED
}

/// How many readers the word records.
pub open spec fn readers(s: u32) -> u32 {
    if s == WRITE_LOCKED {
        0
    } else {
        s / 2
    }
}

/// One step of the read path.
#[derive(Debug, PartialEq, Eq, Structural)]
pub enum ReadStep {
    /// The compare-and-swap to this new word succeeded: one more reader
    /// holds the lock.
    Acquired(u32),
    /// The word was odd — a writer waits or holds the lock — so the reader
    /// must block on the state word while it still equals this observed
    /// value, then retry.
    Block(u32),
}

/// One step of the write path.
#[derive(Debug, PartialEq, Eq, Structural)]
pub enum WriteStep {
    /// The compare-and-swap from an unlocked word to `WRITE_LOCKED`
    /// succeeded: the writer holds the lock.
    Acquired,
    /// Readers hold the lock and no writer was waiting yet: raise the
    /// writer-waiting flag by a compare-and-swap to this odd word, so no
    /// new reader overtakes this writer; then block and retry.
    RaiseFlag(u32),
    /// The flag is already raised (or another writer holds the lock):
    /// block and retry.
    Block,
}

/// What one iteration of the read path does to an observed word: an even
/// word admits the reader, an odd word makes it block.
pub open spec fn spec_read_acquire(s: u32) -> ReadStep {
    if s % 2 == 0 {
        ReadStep::Acquired((s + 2) as u32)
    } else {
        ReadStep::Block(s)
    }
}

/// What one iteration of the write path does to an observed word.
pub open spec fn spec_write_acquire(s: u32) -> WriteStep {
    if s <= 1 {
        WriteStep::Acquired
    } else if s % 2 == 0 {
        WriteStep::RaiseFlag((s + 1) as u32)
    } else {
        WriteStep::Block
    }
}

/// What a reader's releasing decrement does: two off the word, and the
/// wake of one writer — after bumping the wake counter — exactly when the
/// departing reader was the last one and a writer was waiting.
pub open spec fn spec_read_release(s: u32) -> (u32, bool) {
    ((s - 2) as u32, s == 3)
}

/// One iteration of the read path: even words admit the reader, odd words
/// (a writer waiting, or the lock write-locked) make it block, so no new
/// reader overtakes a waiting writer.
pub fn read_acquire(s: u32) -> (r: ReadStep)
    requires
        valid_rw_word(s),
        s % 2 == 0 ==> s <= MAX_READ_WORD,
    ensures
        r == spec_read_acquire(s),
{
    if s % 2 == 0 {
        ReadStep::Acquired(s + 2)
    } else {
        ReadStep::Block(s)
    }
}

/// One iteration of the write path: acquire from an unlocked word, else
/// raise the writer-waiting flag on an even word, else block.
pub fn write_acquire(s: u32) -> (r: WriteStep)
    requires
        valid_rw_word(s),
    ensures
        r == spec_write_acquire(s),
{
    if s <= 1 {
        WriteStep::Acquired
    } else if s % 2 == 0 {
        WriteStep::RaiseFlag(s + 1)
    } else {
        WriteStep::Block
    }
}

/// After raising the flag (or finding it raised), a writer re-reads the
/// word and blocks — on the wake counter, with the counter value it read
/// before — only while the lock is still held by anyone.
pub fn writer_should_block(s: u32) -> (r: bool)
    ensures
        r == (s >= 2),
{
    s >= 2
}

/// A reader's releasing decrement, as a transition on the word it read.
pub fn read_release_word(s: u32) -> (r: (u32, bool))
    requires
        valid_rw_word(s),
        readers(s) > 0,
    ensures
        r == spec_read_release(s),
{
    (s - 2, s == 3)
}

/// New readers never overtake a waiting writer: while the word records a
/// waiting writer, the read path blocks.
pub proof fn lemma_no_reader_overtakes_waiting_writer(s: u32)
    requires
        valid_rw_word(s),
        writer_waiting(s),
    ensures
        spec_read_acquire(s) == ReadStep::Block(s),
{
}

/// Exclusivity in the encoding: a write-locked word records no readers and
/// blocks the read path, and the write path acquires only from words that
/// record no readers at all.
pub proof fn lemma_writer_excludes_readers(s: u32)
    requires
        valid_rw_word(s),
    ensures
        is_write_locked(s) ==> readers(s) == 0,
        is_write_locked(s) ==> spec_read_acquire(s) == ReadStep::Block(s),
        spec_write_acquire(s) == WriteStep::Acquired ==> readers(s) == 0,
        spec_write_acquire(s) == WriteStep::Acquired ==> !is_write_locked(s),
{
}

/// The read path keeps the count right: admitting a reader raises the
/// recorded count by exactly one and leaves the flag bit alone, and a
/// reader's release lowers it by exactly one.
pub proof fn lemma_reader_count_tracks(s: u32)
    requires
        valid_rw_word(s),
    ensures
        s % 2 == 0 && s <= MAX_READ_WORD ==> (spec_read_acquire(s) matches ReadStep::Acquired(
            n,
        ) && readers(n) == readers(s) + 1 && !writer_waiting(n) && valid_rw_word(n)),
        readers(s) > 0 ==> (readers(spec_read_release(s).0) == readers(s) - 1 && (writer_waiting(
            spec_read_release(s).0,
        ) <==> writer_waiting(s)) && valid_rw_word(spec_read_release(s).0)),
{
}

/// Raising the writer-waiting flag leaves the reader count alone and
/// yields a valid odd word.
pub proof fn lemma_flag_preserves_readers(s: u32)
    requires
        valid_rw_word(s),
    ensures
        spec_write_acquire(s) matches WriteStep::RaiseFlag(n) ==> (readers(n) == readers(s)
            && writer_waiting(n) && valid_rw_word(n)),
{
}

/// State of a reader-writer lock as contracts see it: the packed word,
/// the writer wake counter, the value it stores while no writer holds
/// the lock, and the ghost identity of this lock instance, which its
/// guards carry.
pub struct RwLockView<T> {
    pub state: u32,
    pub writer_wake_counter: u32,
    pub stored: Option<T>,
    pub id: int,
}

impl<T> RwLockView<T> {
    /// Well-formed: the word is a valid encoding, and the value is stored
    /// exactly while no writer holds the lock.
    pub open spec fn wf(self) -> bool {
        valid_rw_word(self.state) && (self.state == WRITE_LOCKED <==> self.stored.is_none())
    }
}

/// A reader-writer lock protecting one value of type `T`.
pub struct RwLock<T> {
    state: u32,
    writer_wake_counter: u32,
    value: Option<T>,
    id: Ghost<int>,
}

/// Witness that its holder is one of the readers recorded in the word of
/// an `RwLock`; the value stays in the lock and is read through it. The
/// guard carries the identity of the lock that issued it, so no other
/// lock accepts it for reading or release.
pub struct ReadGuard {
    lock_id: Ghost<int>,
}

/// Witness that its holder write-locked an `RwLock`; it carries the
/// protected value for the duration of the exclusive section, and the
/// identity of the lock that issued it, so no other lock accepts it at
/// release.
pub struct WriteGuard<T> {
    value: T,
    lock_id: Ghost<int>,
}

impl<T> View for RwLock<T> {
    type V = RwLockView<T>;

    closed spec fn view(&self) -> RwLockView<T> {
        RwLockView {
            state: self.state,
            writer_wake_counter: self.writer_wake_counter,
            stored: self.value,
            id: self.id@,
        }
    }
}

impl<T> View for WriteGuard<T> {
    type V = T;

    closed spec fn view(&self) -> T {
        self.value
    }
}

impl ReadGuard {
    /// The identity of the lock that issued this guard.
    pub closed spec fn issuer(&self) -> int {
        self.lock_id@
    }
}

impl<T> WriteGuard<T> {
    /// The identity of the lock that issued this guard.
    pub closed spec fn issuer(&self) -> int {
        self.lock_id@
    }
}

impl<T> RwLock<T> {
    pub open spec fn wf(&self) -> bool {
        self@.wf()
    }

    /// A new lock starts with no readers, no waiting writer, and the given
    /// value stored. Nothing is promised of its identity, so no guard of
    /// another lock can be shown to be this one's.
    pub fn new(value: T) -> (r: RwLock<T>)
        ensures
            r.wf(),
            r@.state == 0,
            r@.writer_wake_counter == 0,
            r@.stored == Some(value),
    {
        RwLock { state: 0, writer_wake_counter: 0, value: Some(value), id: Ghost(0) }
    }

    /// One iteration of the read path on this lock: admit a reader if the
    /// word is even, otherwise report that the caller must block on the
    /// state word — while it still equals the word observed here — and
    /// retry.
    pub fn try_read(&mut self) -> (g: Option<ReadGuard>)
        requires
            old(self).wf(),
            old(self)@.state % 2 == 0 ==> old(self)@.state <= MAX_READ_WORD,
        ensures
            final(self).wf(),
            final(self)@.writer_wake_counter == old(self)@.writer_wake_counter,
            final(self)@.stored == old(self)@.stored,
            final(self)@.id == old(self)@.id,
            g.is_some() <==> old(self)@.state % 2 == 0,
            g.is_some() ==> final(self)@.state == old(self)@.state + 2,
            g.is_some() ==> g.unwrap().issuer() == old(self)@.id,
            g.is_none() ==> final(self)@.state == old(self)@.state,
    {
        match read_acquire(self.state) {
            ReadStep::Acquired(n) => {
                self.state = n;
                Some(ReadGuard { lock_id: Ghost(self.id@) })
            },
            ReadStep::Block(_) => None,
        }
    }

    /// Acquire the lock for reading. Concurrently the read path may block
    /// behind a waiting writer; with exclusive access the word must be
    /// even — no writer waiting or holding — and below the reader limit.
    pub fn read(&mut self) -> (g: ReadGuard)
        requires
            old(self).wf(),
            old(self)@.state % 2 == 0,
            old(self)@.state <= MAX_READ_WORD,
        ensures
            final(self).wf(),
            final(self)@.state == old(self)@.state + 2,
            readers(final(self)@.state) == readers(old(self)@.state) + 1,
            final(self)@.writer_wake_counter == old(self)@.writer_wake_counter,
            final(self)@.stored == old(self)@.stored,
            final(self)@.id == old(self)@.id,
            g.issuer() == old(self)@.id,
    {
        let g = self.try_read();
        g.unwrap()
    }

    /// Read the protected value, as any reader this lock recorded may.
    pub fn get(&self, g: &ReadGuard) -> (r: &T)
        requires
            self.wf(),
            readers(self@.state) > 0,
            g.issuer() == self@.id,
        ensures
            *r == self@.stored.unwrap(),
    {
        self.value.as_ref().unwrap()
    }

    /// A reader departs. Returns whether one writer must be woken — after
    /// the wake counter was bumped — which happens exactly when this was
    /// the last reader and a writer was waiting, so the wake can never be
    /// missed between the decrement and the writer's block on the counter.
    pub fn read_release(&mut self, g: ReadGuard) -> (wake_one_writer: bool)
        requires
            old(self).wf(),
            readers(old(self)@.state) > 0,
            g.issuer() == old(self)@.id,
        ensures
            final(self).wf(),
            final(self)@.id == old(self)@.id,
            final(self)@.state == old(self)@.state - 2,
            readers(final(self)@.state) == readers(old(self)@.state) - 1,
            final(self)@.stored == old(self)@.stored,
            wake_one_writer == (old(self)@.state == 3),
            wake_one_writer ==> final(self)@.writer_wake_counter == bump_counter(
                old(self)@.writer_wake_counter,
            ),
            !wake_one_writer ==> final(self)@.writer_wake_counter == old(
                self,
            )@.writer_wake_counter,
    {
        let (n, wake) = read_release_word(self.state);
        self.state = n;
        if wake {
            self.writer_wake_counter = bump_counter_word(self.writer_wake_counter);
        }
        wake
    }

    /// One iteration of the write path on this lock: acquire if the word
    /// is at most the writer-waiting flag, else raise that flag on an even
    /// word so no new reader overtakes this writer, else leave the word
    /// alone. When nothing was acquired the caller blocks on the wake
    /// counter — while the lock is still held — and retries.
    pub fn try_write(&mut self) -> (g: Option<WriteGuard<T>>)
        requires
            old(self).wf(),
        ensures
            final(self).wf(),
            final(self)@.writer_wake_counter == old(self)@.writer_wake_counter,
            final(self)@.id == old(self)@.id,
            g.is_some() <==> old(self)@.state <= 1,
            g.is_some() ==> (final(self)@.state == WRITE_LOCKED && final(self)@.stored.is_none()
                && old(self)@.stored == Some(g.unwrap()@) && g.unwrap().issuer() == old(
                self,
            )@.id),
            g.is_none() ==> final(self)@.stored == old(self)@.stored,
            g.is_none() && old(self)@.state % 2 == 0 ==> final(self)@.state == old(self)@.state
                + 1,
            g.is_none() && old(self)@.state % 2 == 1 ==> final(self)@.state == old(self)@.state,
    {
        match write_acquire(self.state) {
            WriteStep::Acquired => {
                self.state = WRITE_LOCKED;
                let v = self.value.take();
                Some(WriteGuard { value: v.unwrap(), lock_id: Ghost(self.id@) })
            },
            WriteStep::RaiseFlag(n) => {
                self.state = n;
                None
            },
            WriteStep::Block => None,
        }
    }

    /// Acquire the lock for writing and take the protected value.
    /// Concurrently the write path may raise the writer-waiting flag and
    /// block; with exclusive access the word must record no readers.
    pub fn write(&mut self) -> (g: WriteGuard<T>)
        requires
            old(self).wf(),
            old(self)@.state <= 1,
        ensures
            final(self).wf(),
            final(self)@.state == WRITE_LOCKED,
            final(self)@.writer_wake_counter == old(self)@.writer_wake_counter,
            final(self)@.id == old(self)@.id,
            old(self)@.stored == Some(g@),
            g.issuer() == old(self)@.id,
    {
        let g = self.try_write();
        g.unwrap()
    }

    /// The writer departs, storing its value again. The word returns to
    /// zero and the wake counter is bumped; the release must then wake one
    /// writer through the counter and all readers through the state word,
    /// since it cannot tell which class is blocked.
    pub fn write_release(&mut self, g: WriteGuard<T>)
        requires
            old(self).wf(),
            old(self)@.state == WRITE_LOCKED,
            g.issuer() == old(self)@.id,
        ensures
            final(self).wf(),
            final(self)@.id == old(self)@.id,
            final(self)@.state == 0,
            final(self)@.stored == Some(g@),
            final(self)@.writer_wake_counter == bump_counter(old(self)@.writer_wake_counter),
    {
        self.state = 0;
        self.writer_wake_counter = bump_counter_word(self.writer_wake_counter);
        self.value = Some(g.into_value());
    }
}

impl<T> WriteGuard<T> {
    /// Read the protected value.
    pub fn get(&self) -> (r: &T)
        ensures
            *r == self@,
    {
        &self.value
    }

    /// Overwrite the protected value.
    pub fn set(&mut self, v: T)
        ensures
            final(self)@ == v,
            final(self).issuer() == old(self).issuer(),
    {
        self.value = v;
    }

    /// Give up the guard and keep the value; the lock stays write-locked.
    pub fn into_value(self) -> (r: T)
        ensures
            r == self@,
    {
        self.value
    }
}

/// The writer wake counter bumps by one, wrapping around.
pub open spec fn bump_counter(w: u32) -> u32 {
    if w == u32::MAX {
        0
    } else {
        (w + 1) as u32
    }
}

fn bump_counter_word(w: u32) -> (r: u32)
    ensures
        r == bump_counter(w),
{
    if w == u32::MAX {
        0
    } else {
        w + 1
    }
}

/// Readers share, a writer excludes: a well-formed lock never records
/// readers while write-locked, a writer holds the value out of the lock
/// exclusively, and readers find the value in place.
pub proof fn lemma_rw_exclusion<T>(v: RwLockView<T>)
    requires
        v.wf(),
    ensures
        is_write_locked(v.state) ==> readers(v.state) == 0 && v.stored.is_none(),
        readers(v.state) > 0 ==> !is_write_locked(v.state) && v.stored.is_some(),
{
}

} // verus!
