//! The outcome of one measurement run: how many messages (or kernel
//! iterations) were counted and how long the measurement window lasted.
//!
//! Durations are whole nanoseconds. The throughput `rate` of a run is,
//! by definition, `count / elapsed_seconds`; with `elapsed_seconds ==
//! elapsed_nanos / 1_000_000_000` this is the exact rational
//! `count * 1_000_000_000 / elapsed_nanos`, which the accessors below
//! expose without rounding beyond an explicit, specified floor division.

use vstd::prelude::*;

verus! {

/// Nanoseconds in one second.
pub const NANOS_PER_SEC: u64 = 1_000_000_000;

/// The result of a single measurement run.
///
/// A measurement window always has a positive duration: a reading below
/// the clock's resolution is rounded up to one nanosecond when the
/// result is formed, so `elapsed_nanos >= 1` and every derived rate is
/// defined.
#[derive(Clone, Copy, Debug, PartialEq, Eq, Structural)]
pub struct RunResult {
    /// Messages counted (stream benchmark) or iterations run (kernel runner).
    pub count: u64,
    /// Length of the measurement window, in nanoseconds; always at least 1.
    pub elapsed_nanos: u64,
}

impl RunResult {
    /// Well-formedness: the measurement window has a positive duration.
    pub open spec fn wf(self) -> bool {
        self.elapsed_nanos >= 1
    }

    /// Numerator of the exact rate `count / elapsed_seconds`, written over
    /// nanoseconds: `count * 1_000_000_000 / elapsed_nanos`.
    pub open spec fn rate_num(self) -> int {
        self.count * NANOS_PER_SEC
    }

    /// Denominator of the exact rate: the window in nanoseconds.
    pub open spec fn rate_den(self) -> int {
        self.elapsed_nanos as int
    }

    /// Numerator of the exact per-operation cost in nanoseconds,
    /// `elapsed_seconds * 1_000_000_000 / count == elapsed_nanos / count`.
    pub open spec fn per_op_num(self) -> int {
        self.elapsed_nanos as int
    }

    /// Denominator of the exact per-operation cost: the operation count.
    pub open spec fn per_op_den(self) -> int {
        self.count as int
    }

    /// Forms the result of a run that counted `count` items over a window
    /// measured as `elapsed_nanos`; a zero reading (a window shorter than
    /// the clock's resolution) is rounded up to one nanosecond.
    pub fn from_window(count: u64, elapsed_nanos: u64) -> (r: RunResult)
        ensures
            r.count == count,
            elapsed_nanos >= 1 ==> r.elapsed_nanos == elapsed_nanos,
            elapsed_nanos == 0 ==> r.elapsed_nanos == 1,
            r.wf(),
    {
        RunResult {
            count,
            elapsed_nanos: if elapsed_nanos == 0 { 1 } else { elapsed_nanos },
        }
    }

    /// The rate `count / elapsed_seconds` in thousandths of an item per
    /// second, rounded toward zero: exactly
    /// `count * 1_000_000_000_000 / elapsed_nanos`.
    pub fn rate_milli_per_sec(&self) -> (r: u128)
        requires
            self.wf(),
        ensures
            r == self.count * 1_000_000_000_000int / self.elapsed_nanos as int,
    {
        (self.count as u128) * 1_000_000_000_000u128 / (self.elapsed_nanos as u128)
    }

    /// The per-operation cost `elapsed_seconds * 1e9 / count` in
    /// thousandths of a nanosecond (picoseconds), rounded toward zero:
    /// exactly `elapsed_nanos * 1000 / count`.
    pub fn per_op_picos(&self) -> (r: u128)
        requires
            self.wf(),
            self.count >= 1,
        ensures
            r == self.elapsed_nanos * 1000int / self.count as int,
    {
        (self.elapsed_nanos as u128) * 1000u128 / (self.count as u128)
    }
}

/// The rate of every well-formed `RunResult` equals `count /
/// elapsed_seconds` exactly: as rationals, `rate_num / rate_den ==
/// count / (elapsed_nanos / 1_000_000_000)`, here cross-multiplied, and
/// the denominator is never zero.
pub proof fn lemma_rate_is_count_over_elapsed(r: RunResult)
    requires
        r.wf(),
    ensures
        r.rate_num() * r.elapsed_nanos == r.count * NANOS_PER_SEC * r.rate_den(),
        r.rate_den() >= 1,
{
}

/// The per-operation cost of every well-formed `RunResult` with a
/// positive count equals `elapsed_seconds * 1_000_000_000 / count`
/// exactly: as rationals, `per_op_num / per_op_den ==
/// (elapsed_nanos * 1_000_000_000) / (1_000_000_000 * count)`, here
/// cross-multiplied, and the denominator is never zero.
pub proof fn lemma_per_op_is_elapsed_over_count(r: RunResult)
    requires
        r.wf(),
        r.count >= 1,
    ensures
        r.per_op_num() * (NANOS_PER_SEC * r.count) == r.elapsed_nanos * NANOS_PER_SEC * r.per_op_den(),
        r.per_op_den() >= 1,
{
    assert(r.elapsed_nanos * ((NANOS_PER_SEC as int) * r.count) == r.elapsed_nanos * (NANOS_PER_SEC as int) * r.count) by (nonlinear_arith);
}

} // verus!
