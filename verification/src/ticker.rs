//! The ticker's arithmetic: from two samples of the write counter and the
//! time between them to a status line, or to silence where nothing was
//! written in between.

use vstd::prelude::*;
use crate::counters::SharedCounters;
use crate::scale::scaled;
use crate::scale::scaled_chars;
use crate::text::decimal;
use crate::text::push_decimal;
use crate::text::push_str;
use crate::text::string_of;
use crate::worker::WORD_BYTES;

verus! {

/// Milliseconds in a second: rates are per second, times in milliseconds.
pub const MS_PER_SECOND: u64 = 1000;

/// What the ticker keeps from one tick to the next: the write count it saw
/// last.
#[derive(Clone, Copy, Debug)]
pub struct TickerSnapshot {
    pub last_count: u64,
}

/// The bytes written between a sample `last` of the write counter and a later
/// sample `this`. A counter never goes down; were `this` the smaller, nothing
/// counts as written.
pub open spec fn bytes_between(last: u64, this: u64) -> nat {
    if this >= last {
        ((this - last) * WORD_BYTES) as nat
    } else {
        0
    }
}

/// The rate of `bytes` in `elapsed_ms` milliseconds, in bytes per second and
/// human units; a rate over no time at all is shown as `infP`.
pub open spec fn rate_text(bytes: nat, elapsed_ms: nat) -> Seq<char> {
    if elapsed_ms == 0 {
        "infP"@
    } else {
        scaled(bytes * MS_PER_SECOND as nat, elapsed_ms)
    }
}

/// The status line of a tick that saw `this` writes in all, `bytes` of them
/// new in the last `elapsed_ms` milliseconds, and `passes` passes.
pub open spec fn tick_text(bytes: nat, this: u64, passes: u64, elapsed_ms: u64) -> Seq<char> {
    "updates "@ + rate_text(bytes, elapsed_ms as nat) + "/s "@ + scaled(
        this as nat * WORD_BYTES as nat,
        1,
    ) + ", "@ + decimal(passes as nat) + " array passes"@
}

/// Whether `out` is what a tick says: nothing where no byte was written
/// since the last sample, the status line otherwise.
pub open spec fn tick_says(
    last: u64,
    this: u64,
    passes: u64,
    elapsed_ms: u64,
    out: Option<String>,
) -> bool {
    if bytes_between(last, this) == 0 {
        out is None
    } else {
        out matches Some(line) && line@ == tick_text(
            bytes_between(last, this),
            this,
            passes,
            elapsed_ms,
        )
    }
}

/// Writes the rate of `bytes` in `elapsed_ms` milliseconds.
fn push_rate(out: &mut Vec<char>, bytes: u128, elapsed_ms: u64)
    requires
        bytes <= u64::MAX * WORD_BYTES,
    ensures
        final(out)@ == old(out)@ + rate_text(bytes as nat, elapsed_ms as nat),
{
    if elapsed_ms == 0 {
        push_str(out, "infP");
    } else {
        let per_second: u128 = MS_PER_SECOND as u128;
        let mut rate = scaled_chars(bytes * per_second, elapsed_ms);
        out.append(&mut rate);
    }
}

impl TickerSnapshot {
    /// A snapshot that has seen `last_count` writes.
    pub fn new(last_count: u64) -> (snapshot: TickerSnapshot)
        ensures
            snapshot.last_count == last_count,
    {
        TickerSnapshot { last_count }
    }

    /// One tick: given the write count `this_count` and the pass count
    /// `passes` as sampled now, `elapsed_ms` milliseconds after the last
    /// tick, gives the status line, or nothing if no byte was written since.
    /// The snapshot then holds `this_count`.
    pub fn tick(&mut self, this_count: u64, passes: u64, elapsed_ms: u64) -> (out: Option<String>)
        ensures
            final(self).last_count == this_count,
            tick_says(old(self).last_count, this_count, passes, elapsed_ms, out),
    {
        let last: u64 = self.last_count;
        self.last_count = this_count;
        if this_count <= last {
            return None;
        }
        let word: u128 = WORD_BYTES as u128;
        let bytes: u128 = ((this_count - last) as u128) * word;
        let total: u128 = (this_count as u128) * word;
        let mut line: Vec<char> = Vec::new();
        push_str(&mut line, "updates ");
        push_rate(&mut line, bytes, elapsed_ms);
        push_str(&mut line, "/s ");
        let mut total_text = scaled_chars(total, 1);
        line.append(&mut total_text);
        push_str(&mut line, ", ");
        push_decimal(&mut line, passes as u128);
        push_str(&mut line, " array passes");
        Some(string_of(&line))
    }

    /// One tick on the shared counters: samples the write count, and the
    /// pass count where there is something to say, and says what `tick` says
    /// of the samples. Which values the samples have is up to the workers;
    /// the snapshot then holds the write count that was sampled.
    pub fn sample(&mut self, counters: &SharedCounters, elapsed_ms: u64) -> (out: Option<String>)
        ensures
            exists|passes: u64|
                tick_says(
                    old(self).last_count,
                    final(self).last_count,
                    passes,
                    elapsed_ms,
                    out,
                ),
    {
        let this_count: u64 = counters.read_updates();
        let passes: u64 = if this_count > self.last_count {
            counters.read_passes()
        } else {
            0
        };
        self.tick(this_count, passes, elapsed_ms)
    }
}

} // verus!
