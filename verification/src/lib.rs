//! Low-level, intra-process synchronization primitives, verified as the
//! state machines they implement: an atomically reference-counted pointer
//! with a weak variant, a spin lock, a mutual-exclusion lock with a
//! spin-then-block contended path, a condition variable, a reader-writer
//! lock with writer-starvation avoidance, and a single-use handoff channel.
//!
//! Each primitive's internal state machine — the word encodings, the
//! transition on every atomic step, and the decisions of the contended
//! paths (when to spin, when to block, what value to block on, and whom to
//! wake) — lives here with full contracts. Blocking itself needs an
//! OS-provided futex-style wait/wake facility and real threads, which a
//! verified library cannot host; a runner binds the decision functions to
//! that facility and performs the waits and wakes they call for.

pub mod arc;
pub mod channel;
pub mod condvar;
pub mod mutex;
pub mod rwlock;
pub mod spinlock;
