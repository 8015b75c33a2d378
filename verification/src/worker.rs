//! The buffer worker: one private buffer of eight-byte slots, rewritten pass
//! after pass with a fixed pattern, every write read back and checked, and
//! the writes tallied locally and handed to the shared counters in batches.

use vstd::prelude::*;
use vstd::arithmetic::div_mod::lemma_fundamental_div_mod_converse;
use vstd::arithmetic::div_mod::lemma_small_mod;
use crate::counters::SharedCounters;
use crate::scale::scaled;
use crate::scale::scaled_chars;
use crate::text::decimal;
use crate::text::push_decimal;
use crate::text::push_str;
use crate::text::string_of;

verus! {

/// The size of one buffer slot in bytes.
pub const WORD_BYTES: usize = 8;

/// Slot `i` is written with `i` times this number.
pub const MULTIPLIER: u64 = 1982;

/// The most slots a buffer may have: with more, the pattern of the last slot
/// would not fit a slot.
pub const SLOT_LIMIT: u64 = 9_307_136_263_223_789;

/// The value that belongs in slot `i`.
pub open spec fn pattern(i: nat) -> nat {
    i * MULTIPLIER as nat
}

/// The number of slots that a budget of `budget` bytes pays for.
pub open spec fn slot_count(budget: nat) -> nat {
    budget / WORD_BYTES as nat
}

/// The number of local writes after which a worker flushes: the configured
/// batch size, and one where that is zero.
pub open spec fn flush_at(batch: nat) -> nat {
    if batch == 0 {
        1
    } else {
        batch
    }
}

/// What one worker is given: its share of the memory budget in bytes, and
/// the number of writes it tallies locally between two flushes.
#[derive(Clone, Copy, Debug)]
pub struct WorkerConfig {
    pub budget: usize,
    pub batch: u64,
}

/// A slot that did not hold its pattern when it was read back.
#[derive(Clone, Copy, Debug, PartialEq, Eq)]
pub struct Corruption {
    pub index: usize,
    pub found: u64,
}

/// What one pass handed to the shared counters.
#[derive(Clone, Copy, Debug, PartialEq, Eq)]
pub struct PassReport {
    pub updates: u64,
    pub passes: u64,
}

/// The mathematical content of a worker.
pub struct WorkerState {
    pub slots: Seq<u64>,
    pub batch: nat,
    pub pending_updates: nat,
    pub pending_passes: nat,
}

impl WorkerState {
    /// What every worker satisfies between two passes: the buffer is within
    /// `SLOT_LIMIT`, the write tally is short of a flush, and the passes
    /// tallied since the last flush each added a buffer's length of writes to
    /// the write tally, but for the pass in which that flush fell.
    pub open spec fn valid(self) -> bool {
        &&& self.slots.len() <= SLOT_LIMIT
        &&& self.batch <= u64::MAX
        &&& self.pending_updates < flush_at(self.batch)
        &&& self.pending_passes <= u64::MAX
        &&& self.pending_passes >= 1 ==> (self.pending_passes - 1) * self.slots.len()
            <= self.pending_updates
    }

    /// The writes tallied once one more pass is through, flushed or not.
    pub open spec fn tallied(self) -> nat {
        self.pending_updates + self.slots.len()
    }

    /// Whether the next pass reaches a flush.
    pub open spec fn flushes(self) -> bool {
        self.tallied() >= flush_at(self.batch)
    }

    /// The state after one more pass: every slot holds its pattern, the write
    /// tally is what the flushes left over, and the pass tally is one if a
    /// flush fell into the pass and one more than before if none did (where
    /// it would pass the largest `u64`, it stays).
    pub open spec fn after_pass(self) -> WorkerState {
        WorkerState {
            slots: Seq::new(self.slots.len(), |i: int| pattern(i as nat) as u64),
            batch: self.batch,
            pending_updates: self.tallied() % flush_at(self.batch),
            pending_passes: if self.flushes() {
                1
            } else if self.pending_passes < u64::MAX {
                self.pending_passes + 1
            } else {
                self.pending_passes
            },
        }
    }

    /// The writes that the next pass hands to the shared counter: all that
    /// are tallied but those left over.
    pub open spec fn flushed_updates(self) -> nat {
        (self.tallied() - self.tallied() % flush_at(self.batch)) as nat
    }

    /// The passes that the next pass hands to the shared counter: those
    /// tallied before it if it reaches a flush, none otherwise.
    pub open spec fn flushed_passes(self) -> nat {
        if self.flushes() {
            self.pending_passes
        } else {
            0
        }
    }
}

/// One worker: its buffer and its local tallies.
pub struct BufferWorker {
    slots: Vec<u64>,
    batch: u64,
    pending_updates: u64,
    pending_passes: u64,
}

impl View for BufferWorker {
    type V = WorkerState;

    closed spec fn view(&self) -> WorkerState {
        WorkerState {
            slots: self.slots@,
            batch: self.batch as nat,
            pending_updates: self.pending_updates as nat,
            pending_passes: self.pending_passes as nat,
        }
    }
}

/// The pass tally of a worker with a buffer of at least one slot never
/// reaches the largest `u64` short of a flush: each tallied pass stands for
/// that many writes in a write tally that is itself short of the batch size.
pub proof fn lemma_pass_tally_has_room(s: WorkerState)
    requires
        s.valid(),
        s.slots.len() >= 1,
        !s.flushes(),
    ensures
        s.pending_passes < u64::MAX,
        s.after_pass().pending_passes == s.pending_passes + 1,
{
    let n = s.slots.len();
    let q = s.pending_passes;
    if q >= 1 {
        assert(q - 1 <= (q - 1) * n) by (nonlinear_arith)
            requires
                q >= 1,
                n >= 1,
        ;
    }
}

/// A pass keeps a worker valid.
pub proof fn lemma_pass_keeps_valid(s: WorkerState)
    requires
        s.valid(),
    ensures
        s.after_pass().valid(),
{
    let n = s.slots.len();
    let q = s.pending_passes;
    let b = flush_at(s.batch);
    let next = s.after_pass();
    assert(s.tallied() % b < b) by (nonlinear_arith)
        requires
            b > 0,
    ;
    if s.flushes() {
        assert((next.pending_passes - 1) * n == 0) by (nonlinear_arith)
            requires
                next.pending_passes == 1,
        ;
    } else {
        lemma_small_mod(s.tallied(), b);
        if q < u64::MAX {
            assert(q * n <= s.tallied()) by (nonlinear_arith)
                requires
                    q >= 1 ==> (q - 1) * n <= s.pending_updates,
                    s.tallied() == s.pending_updates + n,
                    q >= 0,
                    n >= 0,
            ;
        } else {
            if n >= 1 {
                lemma_pass_tally_has_room(s);
            }
            assert((q - 1) * n == 0) by (nonlinear_arith)
                requires
                    n == 0,
            ;
        }
    }
}

/// Nothing is lost in a pass: the writes handed on and those left over are
/// the writes tallied before and one for every slot; and the passes handed on
/// and those left over are the passes tallied before and one, for every
/// worker with a buffer of at least one slot.
pub proof fn lemma_pass_conserves_tallies(s: WorkerState)
    requires
        s.valid(),
    ensures
        s.flushed_updates() + s.after_pass().pending_updates == s.pending_updates
            + s.slots.len(),
        s.slots.len() >= 1 ==> s.flushed_passes() + s.after_pass().pending_passes
            == s.pending_passes + 1,
{
    let b = flush_at(s.batch);
    assert(0 <= s.tallied() % b <= s.tallied()) by (nonlinear_arith)
        requires
            b > 0,
            s.tallied() >= 0,
    ;
    if s.slots.len() >= 1 && !s.flushes() {
        lemma_pass_tally_has_room(s);
    }
}

/// Checks a slot that was read back against its pattern.
pub fn check_word(index: usize, found: u64) -> (r: Result<(), Corruption>)
    ensures
        r is Ok <==> found == pattern(index as nat),
        r matches Err(c) ==> c.index == index && c.found == found,
{
    let expected: u128 = (index as u128) * (MULTIPLIER as u128);
    if found as u128 == expected {
        Ok(())
    } else {
        Err(Corruption { index, found })
    }
}

impl WorkerConfig {
    /// The number of slots that the budget pays for.
    pub fn slots(&self) -> (n: usize)
        ensures
            n == slot_count(self.budget as nat),
    {
        self.budget / WORD_BYTES
    }

    /// The line that announces a worker's allocation: the budget in human
    /// units, the number of slots, and the budget in bytes.
    pub fn startup_line(&self) -> (line: String)
        ensures
            line@ == startup_text(self.budget as nat),
    {
        let mut out: Vec<char> = Vec::new();
        push_str(&mut out, "allocating ");
        let mut size = scaled_chars(self.budget as u128, 1);
        out.append(&mut size);
        push_str(&mut out, "B in vec of usize[");
        push_decimal(&mut out, self.slots() as u128);
        push_str(&mut out, "] = ");
        push_decimal(&mut out, self.budget as u128);
        push_str(&mut out, " bytes");
        string_of(&out)
    }
}

/// The text of the line that announces a worker with `budget` bytes.
pub open spec fn startup_text(budget: nat) -> Seq<char> {
    "allocating "@ + scaled(budget, 1) + "B in vec of usize["@ + decimal(slot_count(budget))
        + "] = "@ + decimal(budget) + " bytes"@
}

impl BufferWorker {
    /// Every worker is valid, at all times.
    #[verifier::type_invariant]
    spec fn valid(self) -> bool {
        self@.valid()
    }

    /// Allocates a worker's buffer, all slots zero, with empty tallies.
    /// There is no worker for a budget of more than `SLOT_LIMIT` slots.
    pub fn new(config: WorkerConfig) -> (w: Option<BufferWorker>)
        ensures
            w is Some <==> slot_count(config.budget as nat) <= SLOT_LIMIT,
            w matches Some(worker) ==> {
                &&& worker@.valid()
                &&& worker@.slots == Seq::new(slot_count(config.budget as nat), |i: int| 0u64)
                &&& worker@.batch == config.batch
                &&& worker@.pending_updates == 0
                &&& worker@.pending_passes == 0
            },
    {
        let n: usize = config.slots();
        if n as u64 > SLOT_LIMIT {
            return None;
        }
        let slots: Vec<u64> = vec![0u64; n];
        let worker = BufferWorker { slots, batch: config.batch, pending_updates: 0, pending_passes: 0 };
        assert(worker@.slots =~= Seq::new(slot_count(config.budget as nat), |i: int| 0u64));
        Some(worker)
    }

    /// Writes every slot with its pattern, reads each back and checks it, and
    /// tallies the writes; whenever the tally reaches the batch size, hands
    /// it and the passes tallied so far to `counters`. Then tallies the pass.
    ///
    /// The pass always completes: a slot that was just written holds what was
    /// written. The report says what was handed to `counters`.
    pub fn run_pass(&mut self, counters: &SharedCounters) -> (r: Result<PassReport, Corruption>)
        ensures
            old(self)@.valid(),
            final(self)@.valid(),
            final(self)@ == old(self)@.after_pass(),
            forall|i: int|
                0 <= i < final(self)@.slots.len() ==> #[trigger] final(self)@.slots[i] == pattern(
                    i as nat,
                ),
            r matches Ok(report) && report.updates == old(self)@.flushed_updates()
                && report.passes == old(self)@.flushed_passes(),
    {
        proof {
            use_type_invariant(&*self);
        }
        let ghost start = self@;
        let ghost b = flush_at(start.batch);
        let ghost mut flush_count: nat = 0;
        let batch: u64 = self.batch;
        let mut pending_updates: u64 = self.pending_updates;
        let mut pending_passes: u64 = self.pending_passes;
        let mut slots: Vec<u64> = Vec::new();
        assert((pending_passes - 1) * 0 == 0) by (nonlinear_arith);
        std::mem::swap(&mut slots, &mut self.slots);
        let n: usize = slots.len();
        let mut report = PassReport { updates: 0, passes: 0 };
        let mut i: usize = 0;
        while i < n
            invariant
                start.valid(),
                b == flush_at(start.batch),
                n == slots.len(),
                n == start.slots.len(),
                i <= n,
                batch == start.batch,
                forall|j: int| 0 <= j < i ==> #[trigger] slots[j] == pattern(j as nat),
                pending_updates < b,
                report.updates + pending_updates == start.pending_updates + i,
                report.updates == flush_count * b,
                flush_count > 0 ==> pending_updates <= i,
                flush_count == 0 ==> pending_passes == start.pending_passes && report.passes == 0,
                flush_count > 0 ==> pending_passes == 0 && report.passes == start.pending_passes,
            decreases n - i,
        {
            let word: u64 = (i as u64) * MULTIPLIER;
            slots.set(i, word);
            match check_word(i, slots[i]) {
                Err(c) => {
                    return Err(c);
                },
                Ok(()) => {},
            }
            pending_updates += 1;
            if pending_updates >= batch {
                proof {
                    assert((flush_count + 1) * b == flush_count * b + b) by (nonlinear_arith);
                    flush_count = flush_count + 1;
                }
                counters.add_updates(pending_updates);
                counters.add_passes(pending_passes);
                report.updates += pending_updates;
                report.passes += pending_passes;
                pending_updates = 0;
                pending_passes = 0;
            }
            i += 1;
        }
        proof {
            lemma_fundamental_div_mod_converse(
                start.tallied() as int,
                b as int,
                flush_count as int,
                pending_updates as int,
            );
            if flush_count > 0 {
                assert(flush_count * b >= b) by (nonlinear_arith)
                    requires
                        flush_count >= 1,
                        b >= 0,
                ;
            }
        }
        if pending_passes < u64::MAX {
            pending_passes += 1;
        }
        proof {
            lemma_pass_keeps_valid(start);
            assert(slots@ =~= start.after_pass().slots);
        }
        *self = BufferWorker { slots, batch, pending_updates, pending_passes };
        Ok(report)
    }

    /// The number of slots in the buffer.
    pub fn len(&self) -> (n: usize)
        ensures
            n == self@.slots.len(),
    {
        self.slots.len()
    }

    /// The value in slot `i`.
    pub fn slot(&self, i: usize) -> (word: u64)
        requires
            i < self@.slots.len(),
        ensures
            word == self@.slots[i as int],
    {
        self.slots[i]
    }

    /// The writes tallied since the last flush.
    pub fn pending_updates(&self) -> (n: u64)
        ensures
            n == self@.pending_updates,
    {
        self.pending_updates
    }

    /// The passes tallied since the last flush.
    pub fn pending_passes(&self) -> (n: u64)
        ensures
            n == self@.pending_passes,
    {
        self.pending_passes
    }
}

} // verus!
