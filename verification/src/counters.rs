//! The two counters that every worker feeds and the ticker reads: the number
//! of slot writes and the number of full buffer passes, over the whole run.
//!
//! The counters are atomics. The verifier sees nothing of their values, so
//! the operations here promise nothing of what a read returns; what a counter
//! shows is described by the sequential model at the end of this file.

use std::sync::atomic::AtomicU64;
use std::sync::atomic::Ordering;
use vstd::prelude::*;

verus! {

/// Counters shared by all workers of a run. Every operation is one atomic
/// step, sequentially consistent with all the others; none blocks. A total
/// that passed the largest `u64` would start again from zero.
pub struct SharedCounters {
    updates: AtomicU64,
    passes: AtomicU64,
}

impl SharedCounters {
    /// Two counters at zero.
    pub fn new() -> SharedCounters {
        SharedCounters { updates: AtomicU64::new(0), passes: AtomicU64::new(0) }
    }

    /// Adds `n` slot writes to the total.
    pub fn add_updates(&self, n: u64) {
        self.updates.fetch_add(n, Ordering::SeqCst);
    }

    /// Adds `n` completed passes to the total.
    pub fn add_passes(&self, n: u64) {
        self.passes.fetch_add(n, Ordering::SeqCst);
    }

    /// The slot writes committed so far, over all workers.
    pub fn read_updates(&self) -> u64 {
        self.updates.load(Ordering::SeqCst)
    }

    /// The passes committed so far, over all workers.
    pub fn read_passes(&self) -> u64 {
        self.passes.load(Ordering::SeqCst)
    }
}

/// What a counter that started at `start` shows once the additions `adds`
/// have been applied: all additions to one counter fall into one order, and a
/// read shows the start value and every addition ordered before it.
pub open spec fn counted(start: nat, adds: Seq<nat>) -> nat
    decreases adds.len(),
{
    if adds.len() == 0 {
        start
    } else {
        counted(start, adds.drop_last()) + adds.last()
    }
}

/// In the sequential model a counter never goes down: of two reads, the one
/// that follows more of the additions shows no less than the other, whatever
/// was added in between.
pub proof fn lemma_counted_never_decreases(start: nat, adds: Seq<nat>, earlier: int, later: int)
    requires
        0 <= earlier <= later <= adds.len(),
    ensures
        counted(start, adds.take(earlier)) <= counted(start, adds.take(later)),
    decreases later - earlier,
{
    if earlier < later {
        lemma_counted_never_decreases(start, adds, earlier, later - 1);
        assert(adds.take(later).drop_last() =~= adds.take(later - 1));
    }
}

} // verus!
