//! An atomically reference-counted shared pointer with a weak variant.
//!
//! One allocation carries two counters and the payload. `data_ref_count`
//! counts the strong handles ([`Arc`]); the payload lives exactly while it
//! is nonzero. `alloc_ref_count` counts the weak handles ([`Weak`]) plus
//! one implicit weak unit standing for all strong handles together; the
//! allocation lives exactly while it is nonzero. Dropping the last strong
//! handle hands the payload out (its destruction) and drops the implicit
//! weak unit; dropping the last handle of all ends the allocation.
//!
//! In this exclusive-access model the allocation is an explicit
//! [`ArcData`] value and the handles are unforgeable tokens: every
//! operation takes the allocation it works on, a ghost set per counter
//! records exactly which live tokens it covers, and each count equals the
//! size of its set. Creating a handle mints a fresh token; dropping one
//! consumes it. The concurrent paths of the original algorithm that the
//! model serializes — the compare-and-swap loops of `upgrade` and
//! `downgrade`, and the sentinel with which `get_mut` briefly locks the
//! weak counter against a racing `downgrade` — are given as word-level
//! step functions on the counter values they observe.

use vstd::prelude::*;

verus! {

broadcast use vstd::set::group_set_axioms;

/// State of an allocation as contracts see it: the two counts, the
/// payload while it lives, and the ghost identities of the live handles.
pub struct ArcDataView<T> {
    pub strong: usize,
    pub alloc: usize,
    pub payload: Option<T>,
    pub strong_ids: Set<int>,
    pub weak_ids: Set<int>,
    pub next_id: int,
}

impl<T> ArcDataView<T> {
    /// Well-formed: each count is the number of live handles of its kind —
    /// `alloc` additionally carries the implicit weak unit while any
    /// strong handle lives — the payload lives exactly while a strong
    /// handle does, and every live identity is below the minting counter.
    pub open spec fn wf(self) -> bool {
        &&& self.strong_ids.finite()
        &&& self.weak_ids.finite()
        &&& self.strong == self.strong_ids.len()
        &&& self.alloc == self.weak_ids.len() + (if self.strong > 0 {
            1int
        } else {
            0int
        })
        &&& (self.payload.is_some() <==> self.strong > 0)
        &&& (forall|i: int| self.strong_ids.contains(i) ==> 0 <= i < self.next_id)
        &&& (forall|i: int| self.weak_ids.contains(i) ==> 0 <= i < self.next_id)
    }
}

/// The allocation behind a family of `Arc` and `Weak` handles.
pub struct ArcData<T> {
    data_ref_count: usize,
    alloc_ref_count: usize,
    data: Option<T>,
    strong_ids: Ghost<Set<int>>,
    weak_ids: Ghost<Set<int>>,
    next_id: Ghost<int>,
}

/// A strong handle: keeps the payload alive. Its view is the ghost
/// identity under which the allocation's strong set records it.
pub struct Arc {
    id: Ghost<int>,
}

/// A weak handle: keeps the allocation alive, but not the payload; it
/// must upgrade to reach the payload, which may already be gone.
pub struct Weak {
    id: Ghost<int>,
}

impl<T> View for ArcData<T> {
    type V = ArcDataView<T>;

    closed spec fn view(&self) -> ArcDataView<T> {
        ArcDataView {
            strong: self.data_ref_count,
            alloc: self.alloc_ref_count,
            payload: self.data,
            strong_ids: self.strong_ids@,
            weak_ids: self.weak_ids@,
            next_id: self.next_id@,
        }
    }
}

impl View for Arc {
    type V = int;

    closed spec fn view(&self) -> int {
        self.id@
    }
}

impl View for Weak {
    type V = int;

    closed spec fn view(&self) -> int {
        self.id@
    }
}

impl<T> ArcData<T> {
    pub open spec fn wf(&self) -> bool {
        self@.wf()
    }
}

impl Arc {
    /// Allocate: one strong handle, whose implicit weak unit is the one
    /// unit of the allocation count.
    pub fn new<T>(data: T) -> (r: (ArcData<T>, Arc))
        ensures
            r.0.wf(),
            r.0@.strong == 1,
            r.0@.alloc == 1,
            r.0@.payload == Some(data),
            r.0@.strong_ids == Set::<int>::empty().insert(r.1@),
            r.0@.weak_ids == Set::<int>::empty(),
    {
        let d = ArcData {
            data_ref_count: 1,
            alloc_ref_count: 1,
            data: Some(data),
            strong_ids: Ghost(Set::empty().insert(0)),
            weak_ids: Ghost(Set::empty()),
            next_id: Ghost(1),
        };
        (d, Arc { id: Ghost(0) })
    }

    /// Share: a live strong handle mints another one. Refused near the
    /// count's saturation guard, where the original treats the count as
    /// corrupted and aborts.
    pub fn clone<T>(arc: &Arc, data: &mut ArcData<T>) -> (r: Arc)
        requires
            old(data).wf(),
            old(data)@.strong_ids.contains(arc@),
            old(data)@.strong <= usize::MAX / 2,
        ensures
            final(data).wf(),
            final(data)@.strong == old(data)@.strong + 1,
            final(data)@.alloc == old(data)@.alloc,
            final(data)@.payload == old(data)@.payload,
            final(data)@.strong_ids == old(data)@.strong_ids.insert(r@),
            final(data)@.weak_ids == old(data)@.weak_ids,
            !old(data)@.strong_ids.contains(r@),
            !old(data)@.weak_ids.contains(r@),
            counts_of(final(data)@) == apply_op(counts_of(old(data)@), ArcOp::CloneStrong),
    {
        proof {
            assert(data@.strong_ids.len() != 0);
            assert(!data@.strong_ids.contains(data@.next_id));
        }
        let ghost id = data.next_id@;
        data.data_ref_count = data.data_ref_count + 1;
        data.strong_ids = Ghost(data.strong_ids@.insert(id));
        data.next_id = Ghost(data.next_id@ + 1);
        Arc { id: Ghost(id) }
    }

    /// Weaken: a live strong handle mints a weak one, raising the
    /// allocation count. Refused at the counter's saturation guard.
    pub fn downgrade<T>(arc: &Arc, data: &mut ArcData<T>) -> (r: Weak)
        requires
            old(data).wf(),
            old(data)@.strong_ids.contains(arc@),
            old(data)@.alloc < usize::MAX - 1,
        ensures
            final(data).wf(),
            final(data)@.strong == old(data)@.strong,
            final(data)@.alloc == old(data)@.alloc + 1,
            final(data)@.payload == old(data)@.payload,
            final(data)@.strong_ids == old(data)@.strong_ids,
            final(data)@.weak_ids == old(data)@.weak_ids.insert(r@),
            !old(data)@.weak_ids.contains(r@),
            !old(data)@.strong_ids.contains(r@),
            counts_of(final(data)@) == apply_op(counts_of(old(data)@), ArcOp::Downgrade),
    {
        proof {
            assert(data@.strong_ids.len() != 0);
            assert(!data@.weak_ids.contains(data@.next_id));
        }
        let ghost id = data.next_id@;
        data.alloc_ref_count = data.alloc_ref_count + 1;
        data.weak_ids = Ghost(data.weak_ids@.insert(id));
        data.next_id = Ghost(data.next_id@ + 1);
        Weak { id: Ghost(id) }
    }

    /// Drop a strong handle. When it was the last one the payload is
    /// handed back — its destruction runs here, exactly once — and the
    /// implicit weak unit goes with it, which may end the allocation.
    pub fn drop<T>(arc: Arc, data: &mut ArcData<T>) -> (payload: Option<T>)
        requires
            old(data).wf(),
            old(data)@.strong_ids.contains(arc@),
        ensures
            final(data).wf(),
            final(data)@.strong == old(data)@.strong - 1,
            final(data)@.strong_ids == old(data)@.strong_ids.remove(arc@),
            final(data)@.weak_ids == old(data)@.weak_ids,
            payload.is_some() <==> old(data)@.strong == 1,
            old(data)@.strong == 1 ==> payload == old(data)@.payload
                && final(data)@.payload.is_none()
                && final(data)@.alloc == old(data)@.alloc - 1,
            old(data)@.strong != 1 ==> final(data)@.payload == old(data)@.payload
                && final(data)@.alloc == old(data)@.alloc,
            counts_of(final(data)@) == apply_op(counts_of(old(data)@), ArcOp::DropStrong),
    {
        proof {
            assert(data@.strong_ids.remove(arc@).len() + 1 == data@.strong_ids.len());
        }
        data.data_ref_count = data.data_ref_count - 1;
        data.strong_ids = Ghost(data.strong_ids@.remove(arc@));
        if data.data_ref_count == 0 {
            let p = data.data.take();
            data.alloc_ref_count = data.alloc_ref_count - 1;
            p
        } else {
            None
        }
    }

    /// Read the payload, as any live strong handle may: it is alive as
    /// long as one strong handle is.
    pub fn get<'a, T>(arc: &Arc, data: &'a ArcData<T>) -> (r: &'a T)
        requires
            data.wf(),
            data@.strong_ids.contains(arc@),
        ensures
            *r == data@.payload.unwrap(),
    {
        proof {
            assert(data@.strong_ids.len() != 0);
        }
        data.data.as_ref().unwrap()
    }

    /// Whether this strong handle is the only handle of all: no weak
    /// handle and no other strong one. This is the decision `get_mut`
    /// makes while holding the weak counter locked; only then may the
    /// payload be touched exclusively.
    pub fn is_unique<T>(arc: &Arc, data: &ArcData<T>) -> (r: bool)
        requires
            data.wf(),
            data@.strong_ids.contains(arc@),
        ensures
            r == (data@.alloc == 1 && data@.strong == 1),
    {
        data.alloc_ref_count == 1 && data.data_ref_count == 1
    }

    /// The exclusive mutation a unique handle is granted: replace the
    /// payload, handing the previous one back.
    pub fn replace<T>(arc: &Arc, data: &mut ArcData<T>, value: T) -> (prev: T)
        requires
            old(data).wf(),
            old(data)@.strong_ids.contains(arc@),
            old(data)@.alloc == 1,
            old(data)@.strong == 1,
        ensures
            final(data).wf(),
            final(data)@.payload == Some(value),
            prev == old(data)@.payload.unwrap(),
            final(data)@.strong == old(data)@.strong,
            final(data)@.alloc == old(data)@.alloc,
            final(data)@.strong_ids == old(data)@.strong_ids,
            final(data)@.weak_ids == old(data)@.weak_ids,
    {
        let p = data.data.take();
        data.data = Some(value);
        p.unwrap()
    }
}

impl Weak {
    /// Share a weak handle: mint another one, raising the allocation
    /// count. Refused near the count's saturation guard.
    pub fn clone<T>(weak: &Weak, data: &mut ArcData<T>) -> (r: Weak)
        requires
            old(data).wf(),
            old(data)@.weak_ids.contains(weak@),
            old(data)@.alloc <= usize::MAX / 2,
        ensures
            final(data).wf(),
            final(data)@.strong == old(data)@.strong,
            final(data)@.alloc == old(data)@.alloc + 1,
            final(data)@.payload == old(data)@.payload,
            final(data)@.strong_ids == old(data)@.strong_ids,
            final(data)@.weak_ids == old(data)@.weak_ids.insert(r@),
            !old(data)@.weak_ids.contains(r@),
            counts_of(final(data)@) == apply_op(counts_of(old(data)@), ArcOp::CloneWeak),
    {
        proof {
            assert(data@.weak_ids.len() != 0);
            assert(!data@.weak_ids.contains(data@.next_id));
        }
        let ghost id = data.next_id@;
        data.alloc_ref_count = data.alloc_ref_count + 1;
        data.weak_ids = Ghost(data.weak_ids@.insert(id));
        data.next_id = Ghost(data.next_id@ + 1);
        Weak { id: Ghost(id) }
    }

    /// Try to reach the payload: succeeds, minting a strong handle, if
    /// and only if some strong handle is still alive at this commit
    /// point; once the payload is gone it returns nothing, forever.
    pub fn upgrade<T>(&self, data: &mut ArcData<T>) -> (r: Option<Arc>)
        requires
            old(data).wf(),
            old(data)@.weak_ids.contains(self@),
            old(data)@.strong < usize::MAX,
        ensures
            final(data).wf(),
            r.is_some() <==> old(data)@.strong > 0,
            final(data)@.payload == old(data)@.payload,
            final(data)@.weak_ids == old(data)@.weak_ids,
            r.is_some() ==> final(data)@.strong == old(data)@.strong + 1 && final(data)@.alloc
                == old(data)@.alloc && final(data)@.strong_ids == old(data)@.strong_ids.insert(
                r.unwrap()@,
            ) && !old(data)@.strong_ids.contains(r.unwrap()@),
            r.is_none() ==> final(data)@ == old(data)@,
            counts_of(final(data)@) == apply_op(counts_of(old(data)@), ArcOp::Upgrade),
    {
        proof {
            assert(data@.weak_ids.len() != 0);
        }
        if data.data_ref_count == 0 {
            None
        } else {
            proof {
                assert(!data@.strong_ids.contains(data@.next_id));
            }
            let ghost id = data.next_id@;
            data.data_ref_count = data.data_ref_count + 1;
            data.strong_ids = Ghost(data.strong_ids@.insert(id));
            data.next_id = Ghost(data.next_id@ + 1);
            Some(Arc { id: Ghost(id) })
        }
    }

    /// Drop a weak handle, lowering the allocation count. Returns whether
    /// this was the last handle of all, which frees the allocation —
    /// exactly once, and only after the payload is already gone.
    pub fn drop<T>(weak: Weak, data: &mut ArcData<T>) -> (freed: bool)
        requires
            old(data).wf(),
            old(data)@.weak_ids.contains(weak@),
        ensures
            final(data).wf(),
            final(data)@.alloc == old(data)@.alloc - 1,
            final(data)@.weak_ids == old(data)@.weak_ids.remove(weak@),
            final(data)@.strong == old(data)@.strong,
            final(data)@.strong_ids == old(data)@.strong_ids,
            final(data)@.payload == old(data)@.payload,
            freed <==> final(data)@.alloc == 0,
            freed ==> final(data)@.strong == 0 && final(data)@.payload.is_none()
                && final(data)@.weak_ids == Set::<int>::empty(),
            counts_of(final(data)@) == apply_op(counts_of(old(data)@), ArcOp::DropWeak),
    {
        proof {
            assert(data@.weak_ids.remove(weak@).len() + 1 == data@.weak_ids.len());
            if data@.alloc == 1 {
                assert(data@.weak_ids.remove(weak@).len() == 0);
                assert(data@.weak_ids.remove(weak@) =~= Set::<int>::empty());
            }
        }
        data.alloc_ref_count = data.alloc_ref_count - 1;
        data.weak_ids = Ghost(data.weak_ids@.remove(weak@));
        data.alloc_ref_count == 0
    }
}

/// The value `get_mut` briefly stores in the weak counter to claim
/// exclusivity: while it stands, `downgrade` treats the counter as
/// transiently contended and spins instead of raising it.
pub const CLAIM_SENTINEL: usize = usize::MAX;

/// One iteration of `downgrade`'s compare-and-swap loop on the weak
/// counter.
#[derive(Debug, PartialEq, Eq, Structural)]
pub enum DowngradeStep {
    /// The counter reads as claimed by a `get_mut`: spin and re-read.
    Spin,
    /// Compare-and-swap the counter to this raised value; on failure
    /// re-read and take another step.
    Cas(usize),
}

/// One iteration of `upgrade`'s compare-and-swap loop on the strong
/// count.
#[derive(Debug, PartialEq, Eq, Structural)]
pub enum UpgradeStep {
    /// The count reads zero: the payload is gone, give up for good.
    Dead,
    /// Compare-and-swap the count to this raised value; on failure
    /// re-read and take another step.
    Cas(usize),
}

/// What a `downgrade` iteration decides from the weak counter value it
/// observed.
pub open spec fn spec_downgrade_step(n: usize) -> DowngradeStep {
    if n == CLAIM_SENTINEL {
        DowngradeStep::Spin
    } else {
        DowngradeStep::Cas((n + 1) as usize)
    }
}

/// What an `upgrade` iteration decides from the strong count value it
/// observed.
pub open spec fn spec_upgrade_step(n: usize) -> UpgradeStep {
    if n == 0 {
        UpgradeStep::Dead
    } else {
        UpgradeStep::Cas((n + 1) as usize)
    }
}

/// One iteration of `downgrade`'s loop: spin while a `get_mut` holds its
/// claim, otherwise raise the counter. Refused at the counter's
/// saturation guard, where the original treats the count as corrupted.
pub fn downgrade_step(n: usize) -> (r: DowngradeStep)
    requires
        n == CLAIM_SENTINEL || n < CLAIM_SENTINEL - 1,
    ensures
        r == spec_downgrade_step(n),
{
    if n == CLAIM_SENTINEL {
        DowngradeStep::Spin
    } else {
        DowngradeStep::Cas(n + 1)
    }
}

/// One iteration of `upgrade`'s loop: give up once the payload is gone,
/// otherwise raise the count. Refused at the count's saturation guard.
pub fn upgrade_step(n: usize) -> (r: UpgradeStep)
    requires
        n < usize::MAX,
    ensures
        r == spec_upgrade_step(n),
{
    if n == 0 {
        UpgradeStep::Dead
    } else {
        UpgradeStep::Cas(n + 1)
    }
}

/// `get_mut`'s claim on the weak counter: a compare-and-swap from one —
/// no weak handle besides the implicit unit — to the sentinel. On failure
/// another handle exists and `get_mut` gives up at once.
pub open spec fn spec_claim_weak_counter(n: usize) -> (usize, bool) {
    if n == 1 {
        (CLAIM_SENTINEL, true)
    } else {
        (n, false)
    }
}

/// The claiming compare-and-swap, as a transition on the observed weak
/// counter.
pub fn claim_weak_counter(n: usize) -> (r: (usize, bool))
    ensures
        r == spec_claim_weak_counter(n),
{
    if n == 1 {
        (CLAIM_SENTINEL, true)
    } else {
        (n, false)
    }
}

/// With the claim held, `get_mut` grants exclusive access if and only if
/// the strong count reads one; the counter is then restored to one either
/// way, so a spinning `downgrade` is never blocked for good.
pub fn claimed_unique(strong: usize) -> (r: bool)
    ensures
        r == (strong == 1),
{
    strong == 1
}

/// While `get_mut` holds its claim, every `downgrade` iteration spins:
/// the claim succeeds only from a counter of one, and the sentinel it
/// stores makes the downgrade step spin until the claim is released.
pub proof fn lemma_claim_blocks_downgrade()
    ensures
        spec_claim_weak_counter(1).1,
        spec_downgrade_step(spec_claim_weak_counter(1).0) == DowngradeStep::Spin,
{
}

/// One operation of the handle lifecycle, for reasoning about every
/// interleaving of clones, drops, downgrades and upgrades on the handles
/// of one allocation.
pub enum ArcOp {
    CloneStrong,
    DropStrong,
    Downgrade,
    CloneWeak,
    DropWeak,
    Upgrade,
}

/// An allocation's counts, abstracted from the handle identities: the
/// strong count, the allocation count, and whether the payload lives.
pub struct ArcCounts {
    pub strong: nat,
    pub alloc: nat,
    pub payload_alive: bool,
}

/// The counts of an allocation state.
pub open spec fn counts_of<T>(v: ArcDataView<T>) -> ArcCounts {
    ArcCounts { strong: v.strong as nat, alloc: v.alloc as nat, payload_alive: v.payload.is_some() }
}

/// Well-formed counts: the payload lives exactly while a strong handle
/// does, and live strong handles hold the implicit weak unit.
pub open spec fn counts_wf(c: ArcCounts) -> bool {
    (c.payload_alive <==> c.strong > 0) && (c.strong > 0 ==> c.alloc >= 1)
}

/// How many weak handles the counts record: the allocation count less the
/// implicit weak unit of the strong handles.
pub open spec fn weak_handles(c: ArcCounts) -> nat {
    if c.strong > 0 {
        (c.alloc - 1) as nat
    } else {
        c.alloc
    }
}

/// Whether an operation has a live handle to run on.
pub open spec fn op_enabled(c: ArcCounts, op: ArcOp) -> bool {
    match op {
        ArcOp::CloneStrong => c.strong > 0,
        ArcOp::DropStrong => c.strong > 0,
        ArcOp::Downgrade => c.strong > 0,
        ArcOp::CloneWeak => weak_handles(c) > 0,
        ArcOp::DropWeak => weak_handles(c) > 0,
        ArcOp::Upgrade => weak_handles(c) > 0,
    }
}

/// What one lifecycle operation does to the counts; an operation with no
/// live handle to run on changes nothing. Dropping the last strong handle
/// destroys the payload and drops the implicit weak unit; an upgrade
/// succeeds exactly while a strong handle lives.
pub open spec fn apply_op(c: ArcCounts, op: ArcOp) -> ArcCounts {
    if !op_enabled(c, op) {
        c
    } else {
        match op {
            ArcOp::CloneStrong => ArcCounts {
                strong: c.strong + 1,
                alloc: c.alloc,
                payload_alive: c.payload_alive,
            },
            ArcOp::DropStrong => if c.strong == 1 {
                ArcCounts { strong: 0, alloc: (c.alloc - 1) as nat, payload_alive: false }
            } else {
                ArcCounts {
                    strong: (c.strong - 1) as nat,
                    alloc: c.alloc,
                    payload_alive: c.payload_alive,
                }
            },
            ArcOp::Downgrade => ArcCounts {
                strong: c.strong,
                alloc: c.alloc + 1,
                payload_alive: c.payload_alive,
            },
            ArcOp::CloneWeak => ArcCounts {
                strong: c.strong,
                alloc: c.alloc + 1,
                payload_alive: c.payload_alive,
            },
            ArcOp::DropWeak => ArcCounts {
                strong: c.strong,
                alloc: (c.alloc - 1) as nat,
                payload_alive: c.payload_alive,
            },
            ArcOp::Upgrade => if c.strong > 0 {
                ArcCounts { strong: c.strong + 1, alloc: c.alloc, payload_alive: c.payload_alive }
            } else {
                c
            },
        }
    }
}

/// The counts after a sequence of lifecycle operations.
pub open spec fn run_ops(c: ArcCounts, ops: Seq<ArcOp>) -> ArcCounts
    decreases ops.len(),
{
    if ops.len() == 0 {
        c
    } else {
        run_ops(apply_op(c, ops[0]), ops.subrange(1, ops.len() as int))
    }
}

/// How many steps of the sequence destroy the payload.
pub open spec fn payload_drop_count(c: ArcCounts, ops: Seq<ArcOp>) -> nat
    decreases ops.len(),
{
    if ops.len() == 0 {
        0
    } else {
        (if c.payload_alive && !apply_op(c, ops[0]).payload_alive {
            1nat
        } else {
            0nat
        }) + payload_drop_count(apply_op(c, ops[0]), ops.subrange(1, ops.len() as int))
    }
}

/// How many steps of the sequence free the allocation.
pub open spec fn free_count(c: ArcCounts, ops: Seq<ArcOp>) -> nat
    decreases ops.len(),
{
    if ops.len() == 0 {
        0
    } else {
        (if c.alloc > 0 && apply_op(c, ops[0]).alloc == 0 {
            1nat
        } else {
            0nat
        }) + free_count(apply_op(c, ops[0]), ops.subrange(1, ops.len() as int))
    }
}

/// Every lifecycle operation preserves well-formed counts.
pub proof fn lemma_op_preserves_wf(c: ArcCounts, op: ArcOp)
    requires
        counts_wf(c),
    ensures
        counts_wf(apply_op(c, op)),
{
}

/// The payload is destroyed by exactly one operation: the drop of the
/// last strong handle, and by nothing else.
pub proof fn lemma_payload_dies_only_at_last_strong_drop(c: ArcCounts, op: ArcOp)
    requires
        counts_wf(c),
    ensures
        (c.payload_alive && !apply_op(c, op).payload_alive) <==> (op == ArcOp::DropStrong
            && c.strong == 1),
{
}

/// Once no strong handle lives, none ever lives again and the payload
/// stays gone: a later upgrade fails rather than resurrect it.
pub proof fn lemma_dead_run(c: ArcCounts, ops: Seq<ArcOp>)
    requires
        counts_wf(c),
        c.strong == 0,
    ensures
        counts_wf(run_ops(c, ops)),
        run_ops(c, ops).strong == 0,
        !run_ops(c, ops).payload_alive,
    decreases ops.len(),
{
    if ops.len() > 0 {
        lemma_op_preserves_wf(c, ops[0]);
        lemma_dead_run(apply_op(c, ops[0]), ops.subrange(1, ops.len() as int));
    }
}

/// A freed allocation is inert: once the allocation count is zero no
/// operation has a handle left to run on, so nothing changes again.
pub proof fn lemma_freed_run(c: ArcCounts, ops: Seq<ArcOp>)
    requires
        counts_wf(c),
        c.alloc == 0,
    ensures
        run_ops(c, ops) == c,
        free_count(c, ops) == 0,
    decreases ops.len(),
{
    if ops.len() > 0 {
        assert(apply_op(c, ops[0]) == c);
        lemma_freed_run(c, ops.subrange(1, ops.len() as int));
    }
}

/// The payload destructor runs exactly once: over any interleaving of
/// lifecycle operations, the payload is destroyed in exactly one step
/// when the run ends with it gone — necessarily the drop of the last
/// strong handle — and in none when it still lives.
pub proof fn lemma_payload_destroyed_exactly_once(c: ArcCounts, ops: Seq<ArcOp>)
    requires
        counts_wf(c),
    ensures
        counts_wf(run_ops(c, ops)),
        payload_drop_count(c, ops) == (if c.payload_alive && !run_ops(c, ops).payload_alive {
            1int
        } else {
            0int
        }),
    decreases ops.len(),
{
    if ops.len() > 0 {
        let c1 = apply_op(c, ops[0]);
        let rest = ops.subrange(1, ops.len() as int);
        lemma_op_preserves_wf(c, ops[0]);
        lemma_payload_destroyed_exactly_once(c1, rest);
        if c.payload_alive && !c1.payload_alive {
            lemma_dead_run(c1, rest);
        }
        if !c.payload_alive {
            lemma_dead_run(c, ops);
        }
    }
}

/// The allocation is freed exactly once: over any interleaving of
/// lifecycle operations, the allocation count reaches zero in exactly one
/// step when the run ends freed — and only after the payload is already
/// gone — and in none when the allocation outlives the run.
pub proof fn lemma_allocation_freed_exactly_once(c: ArcCounts, ops: Seq<ArcOp>)
    requires
        counts_wf(c),
    ensures
        counts_wf(run_ops(c, ops)),
        free_count(c, ops) == (if c.alloc > 0 && run_ops(c, ops).alloc == 0 {
            1int
        } else {
            0int
        }),
        run_ops(c, ops).alloc == 0 ==> !run_ops(c, ops).payload_alive,
    decreases ops.len(),
{
    if ops.len() > 0 {
        let c1 = apply_op(c, ops[0]);
        let rest = ops.subrange(1, ops.len() as int);
        lemma_op_preserves_wf(c, ops[0]);
        lemma_allocation_freed_exactly_once(c1, rest);
        if c1.alloc == 0 {
            lemma_freed_run(c1, rest);
        }
    }
}

/// An upgrade commits a new strong handle if and only if a strong handle
/// is alive at the attempt: the strong count rises by one exactly then,
/// and a dead allocation is left untouched.
pub proof fn lemma_upgrade_iff_strong_alive(c: ArcCounts)
    requires
        counts_wf(c),
        weak_handles(c) > 0,
    ensures
        c.strong > 0 ==> apply_op(c, ArcOp::Upgrade).strong == c.strong + 1,
        c.strong == 0 ==> apply_op(c, ArcOp::Upgrade) == c,
{
}

} // verus!
