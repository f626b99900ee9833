//! The micro-benchmark kernel runner: execute a fixed iteration count
//! of a computational kernel inside a timed window and report the
//! per-iteration cost.
//!
//! A kernel is pure: each invocation consumes a loop index and folds
//! its work into an accumulator the kernel keeps. After the loop the
//! runner observes the accumulator and hands it back, so the computed
//! value is used outside the hot loop and the work cannot be discarded
//! as dead. There is no connection to set up, so no warm-up step: the
//! timer starts at once.

use vstd::prelude::*;

use crate::run_result::RunResult;
use crate::timing::elapsed_nanos_of;

verus! {

/// The ghost log of loop indices a kernel has been stepped with, in
/// order. The name lets an implementation outside the verifier write
/// the member's signature without naming the verifier's own library;
/// such an implementation never runs the member (ghost items have no
/// run-time meaning) and gives it an `unreachable!()` body.
pub type CallLog = Seq<u64>;

/// A computational kernel under measurement: `step` does one
/// iteration's work, folding it into state the kernel owns, and
/// `accumulator` reads the folded value back as plain bits.
///
/// The trait exists for the library's user to implement — the kernels
/// themselves (numeric transforms, parsing, allocation) live outside
/// the library. The contract is what the runner demands of them:
/// `calls` is the ghost log of the loop indices the kernel has been
/// stepped with, each `step` appends its index to that log, and
/// `accumulator` reads exactly the kernel's accumulated value. An
/// implementation outside the verifier is trusted to meet these
/// clauses; the runner's own contract is proved from them.
pub trait Kernel {
    /// The loop indices this kernel has been stepped with, in order.
    spec fn calls(&self) -> CallLog;

    /// The value the kernel has accumulated so far, as plain bits.
    spec fn acc_spec(&self) -> u64;

    /// Performs the iteration with loop index `i`.
    fn step(&mut self, i: u64)
        ensures
            final(self).calls() == old(self).calls().push(i),
    ;

    /// Reads the accumulated value, as bits, so a caller can observe
    /// it outside the timed loop.
    fn accumulator(&self) -> (r: u64)
        ensures
            r == self.acc_spec(),
    ;
}

/// Runs `kernel` for exactly `iterations` iterations inside one timed
/// window, and returns the run's result together with the observed
/// accumulator: the kernel is stepped exactly `iterations` times, once
/// with each loop index `0 .. iterations` in order, and the returned
/// accumulator is the value the kernel then holds — observed after the
/// loop, so the work stays live. The result counts exactly the
/// `iterations` asked for; each kernel keeps its own accumulator and
/// each run its own timer, so runs are independent.
pub fn run_kernel<K: Kernel>(kernel: &mut K, iterations: u64) -> (r: (RunResult, u64))
    requires
        iterations >= 1,
    ensures
        r.0.count == iterations,
        r.0.wf(),
        final(kernel).calls() == old(kernel).calls() + Seq::new(
            iterations as nat,
            |j: int| j as u64,
        ),
        r.1 == final(kernel).acc_spec(),
{
    let start = std::time::Instant::now();
    let mut i: u64 = 0;
    proof {
        assert(old(kernel).calls() + Seq::new(0, |j: int| j as u64) =~= old(kernel).calls());
    }
    while i < iterations
        invariant
            i <= iterations,
            kernel.calls() == old(kernel).calls() + Seq::new(i as nat, |j: int| j as u64),
        decreases iterations - i,
    {
        kernel.step(i);
        proof {
            assert(Seq::new((i + 1) as nat, |j: int| j as u64) =~= Seq::new(
                i as nat,
                |j: int| j as u64,
            ).push(i));
            assert((old(kernel).calls() + Seq::new(i as nat, |j: int| j as u64)).push(i)
                =~= old(kernel).calls() + Seq::new(i as nat, |j: int| j as u64).push(i));
        }
        i = i + 1;
    }
    let observed = kernel.accumulator();
    let window = elapsed_nanos_of(&start);
    (RunResult::from_window(iterations, window), observed)
}

} // verus!
