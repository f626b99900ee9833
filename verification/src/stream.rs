//! The stream throughput benchmark: consume frames from one live
//! connection, discard exactly one warm-up message before the timer
//! starts, then count decoded payload messages until a target count is
//! reached or the connection closes, and report messages per second.
//!
//! The whole run discipline is a deterministic step function over plain
//! frames, `advance`, folded over the arriving frames by `run_outcome`.
//! The executable [`StreamRun`] follows `advance` step for step — its
//! contract says so — while the caller only performs the receiving:
//! it hands each arriving frame to [`StreamRun::on_frame`] until that
//! reports an outcome.
//!
//! Policy for a source that closes early (before the target count is
//! reached): the run is a valid, if less representative, measurement —
//! it ends without error and reports the count actually reached. A
//! malformed payload, anywhere, aborts the run with a decode error and
//! no result; a transport failure aborts it with a connection error.

use vstd::prelude::*;

use crate::decode::json_bytes_parses;
use crate::decode::json_bytes_wellformed;
use crate::decode::json_text_parses;
use crate::decode::json_text_wellformed;
use crate::run_result::RunResult;
use crate::timing::elapsed_nanos_of;

verus! {

/// One event on the connection, as the benchmark sees it: a payload
/// frame (text or binary), a control frame (ping, pong, close notice —
/// carries no message), the end of the stream, or a transport failure.
pub enum Frame {
    Text(String),
    Binary(Vec<u8>),
    Control,
    Closed,
    Failed,
}

/// The mathematical image of a [`Frame`].
pub enum FrameView {
    Text(Seq<char>),
    Binary(Seq<u8>),
    Control,
    Closed,
    Failed,
}

impl View for Frame {
    type V = FrameView;

    open spec fn view(&self) -> FrameView {
        match self {
            Frame::Text(s) => FrameView::Text(s@),
            Frame::Binary(b) => FrameView::Binary(b@),
            Frame::Control => FrameView::Control,
            Frame::Closed => FrameView::Closed,
            Frame::Failed => FrameView::Failed,
        }
    }
}

/// Whether a frame carries a message payload.
pub open spec fn is_payload(f: FrameView) -> bool {
    f is Text || f is Binary
}

/// Whether a payload frame decodes as a JSON document.
pub open spec fn payload_decodes(f: FrameView) -> bool
    recommends
        is_payload(f),
{
    match f {
        FrameView::Text(s) => json_text_wellformed(s),
        FrameView::Binary(b) => json_bytes_wellformed(b),
        _ => false,
    }
}

/// Where in a run a failure occurred: while consuming the warm-up
/// message, or in the timed steady state.
#[derive(Clone, Copy, Debug, PartialEq, Eq, Structural)]
pub enum FailPoint {
    Warmup,
    Steady,
}

/// Why a run aborted with no result: a payload did not decode, or the
/// transport failed. Either is terminal; nothing is retried, since a
/// retry would corrupt the timing measurement.
#[derive(Clone, Copy, Debug, PartialEq, Eq, Structural)]
pub enum RunError {
    Decode(FailPoint),
    Connection(FailPoint),
}

/// Where a run stands: still waiting for the warm-up message, timing
/// with `n` messages counted so far, or finished.
pub enum PhaseView {
    Warming,
    Timing(nat),
    Finished,
}

/// What one step, or a whole run, yields: nothing yet, a count to
/// report, or an abort.
pub enum OutcomeView {
    Proceed,
    Done(nat),
    Abort(RunError),
}

/// The run discipline, one frame at a time.
///
/// Warm-up: control frames carry no message and are ignored; the first
/// payload frame is the warm-up message — it must decode (else the run
/// aborts at the warm-up point) but is neither counted nor timed; a
/// close ends the run with count 0. Timed phase: each decoding payload
/// raises the count, the run completes when the count reaches `target`,
/// a close reports the count reached, a malformed payload or transport
/// failure aborts. A finished run ignores further frames.
pub open spec fn advance(p: PhaseView, f: FrameView, target: nat) -> (PhaseView, OutcomeView)
    recommends
        target >= 1,
{
    match p {
        PhaseView::Warming => match f {
            FrameView::Control => (PhaseView::Warming, OutcomeView::Proceed),
            FrameView::Closed => (PhaseView::Finished, OutcomeView::Done(0)),
            FrameView::Failed => (
                PhaseView::Finished,
                OutcomeView::Abort(RunError::Connection(FailPoint::Warmup)),
            ),
            _ => if payload_decodes(f) {
                (PhaseView::Timing(0), OutcomeView::Proceed)
            } else {
                (PhaseView::Finished, OutcomeView::Abort(RunError::Decode(FailPoint::Warmup)))
            },
        },
        PhaseView::Timing(c) => match f {
            FrameView::Control => (PhaseView::Timing(c), OutcomeView::Proceed),
            FrameView::Closed => (PhaseView::Finished, OutcomeView::Done(c)),
            FrameView::Failed => (
                PhaseView::Finished,
                OutcomeView::Abort(RunError::Connection(FailPoint::Steady)),
            ),
            _ => if payload_decodes(f) {
                if c + 1 == target {
                    (PhaseView::Finished, OutcomeView::Done(target))
                } else {
                    (PhaseView::Timing(c + 1), OutcomeView::Proceed)
                }
            } else {
                (PhaseView::Finished, OutcomeView::Abort(RunError::Decode(FailPoint::Steady)))
            },
        },
        PhaseView::Finished => (PhaseView::Finished, OutcomeView::Proceed),
    }
}

/// The outcome of feeding `frames`, in order, to a run standing at
/// phase `p`: the first step that yields more than `Proceed` decides,
/// and a stream that runs out first yields `Proceed` (still pending).
pub open spec fn run_outcome_from(p: PhaseView, frames: Seq<FrameView>, target: nat) -> OutcomeView
    decreases frames.len(),
{
    if frames.len() == 0 {
        OutcomeView::Proceed
    } else {
        let stepped = advance(p, frames[0], target);
        if stepped.1 is Proceed {
            run_outcome_from(stepped.0, frames.drop_first(), target)
        } else {
            stepped.1
        }
    }
}

/// The outcome of a whole run over `frames`, from the initial warm-up
/// phase.
pub open spec fn run_outcome(frames: Seq<FrameView>, target: nat) -> OutcomeView {
    run_outcome_from(PhaseView::Warming, frames, target)
}

/// How an outcome shows up at [`StreamRun::on_frame`]'s caller:
/// nothing yet, a well-formed result carrying the reported count, or
/// the aborting error.
pub open spec fn reflects(r: Option<Result<RunResult, RunError>>, out: OutcomeView) -> bool {
    match out {
        OutcomeView::Proceed => r is None,
        OutcomeView::Done(c) => match r {
            Some(Ok(res)) => res.count == c && res.wf(),
            _ => false,
        },
        OutcomeView::Abort(e) => r == Some(Result::<RunResult, RunError>::Err(e)),
    }
}

/// How many frames of a stream carry a payload.
pub open spec fn payload_count(frames: Seq<FrameView>) -> nat
    decreases frames.len(),
{
    if frames.len() == 0 {
        0
    } else {
        (if is_payload(frames[0]) {
            1nat
        } else {
            0nat
        }) + payload_count(frames.drop_first())
    }
}

/// From the timed phase with `c` counted, a stream of decoding payload
/// frames long enough to reach the target completes the run with
/// exactly the target count.
proof fn lemma_timed_completes(frames: Seq<FrameView>, c: nat, target: nat)
    requires
        target >= 1,
        c < target,
        frames.len() >= target - c,
        forall|i: int|
            0 <= i < frames.len() ==> is_payload(#[trigger] frames[i]) && payload_decodes(
                frames[i],
            ),
    ensures
        run_outcome_from(PhaseView::Timing(c), frames, target) == OutcomeView::Done(target),
    decreases target - c,
{
    if c + 1 < target {
        lemma_timed_completes(frames.drop_first(), c + 1, target);
    }
}

/// A source that delivers at least `target + 1` decoding payload
/// messages yields a complete run: the count reported is exactly the
/// target, with the first message spent on warm-up.
pub proof fn lemma_full_stream_completes(frames: Seq<FrameView>, target: nat)
    requires
        target >= 1,
        frames.len() >= target + 1,
        forall|i: int|
            0 <= i < frames.len() ==> is_payload(#[trigger] frames[i]) && payload_decodes(
                frames[i],
            ),
    ensures
        run_outcome(frames, target) == OutcomeView::Done(target),
{
    lemma_timed_completes(frames.drop_first(), 0, target);
}

/// Warm-up exclusion: when the first frame is a decoding payload, the
/// run over the whole stream is the timed run, from count zero, over
/// the rest — the first message contributes to neither the count nor
/// the timed phase.
pub proof fn lemma_warmup_excluded(frames: Seq<FrameView>, target: nat)
    requires
        target >= 1,
        frames.len() >= 1,
        is_payload(frames[0]),
        payload_decodes(frames[0]),
    ensures
        run_outcome(frames, target) == run_outcome_from(
            PhaseView::Timing(0),
            frames.drop_first(),
            target,
        ),
{
}

/// From the timed phase with `c` counted, a stream of decoding payload
/// frames that closes before the target is reached reports the count
/// actually reached.
proof fn lemma_timed_close(frames: Seq<FrameView>, c: nat, target: nat)
    requires
        target >= 1,
        frames.len() >= 1,
        frames.last() is Closed,
        forall|i: int|
            0 <= i < frames.len() - 1 ==> is_payload(#[trigger] frames[i]) && payload_decodes(
                frames[i],
            ),
        c + frames.len() - 1 < target,
    ensures
        run_outcome_from(PhaseView::Timing(c), frames, target) == OutcomeView::Done(
            (c + frames.len() - 1) as nat,
        ),
    decreases frames.len(),
{
    if frames.len() > 1 {
        lemma_timed_close(frames.drop_first(), c + 1, target);
    }
}

/// A source that closes after `n` decoding payload messages, with `n`
/// at most the target, ends the run without error: the reported count
/// is `n - 1` (one message went to warm-up), or `0` when the source
/// closed before any message arrived.
pub proof fn lemma_early_close_reports_partial(frames: Seq<FrameView>, target: nat)
    requires
        target >= 1,
        frames.len() >= 1,
        frames.last() is Closed,
        forall|i: int|
            0 <= i < frames.len() - 1 ==> is_payload(#[trigger] frames[i]) && payload_decodes(
                frames[i],
            ),
        frames.len() - 1 <= target,
    ensures
        run_outcome(frames, target) == OutcomeView::Done(
            if frames.len() == 1 {
                0
            } else {
                (frames.len() - 2) as nat
            },
        ),
{
    if frames.len() > 1 {
        lemma_timed_close(frames.drop_first(), 0, target);
    }
}

/// From the timed phase, a malformed payload at position `i` — before
/// which nothing closed, failed or miscoded, and too early for the run
/// to have completed — aborts the run with a steady-state decode error.
proof fn lemma_malformed_from_timed(frames: Seq<FrameView>, i: int, c: nat, target: nat)
    requires
        target >= 1,
        0 <= i < frames.len(),
        forall|j: int|
            0 <= j < i ==> !((#[trigger] frames[j]) is Closed) && !(frames[j] is Failed) && (
            is_payload(frames[j]) ==> payload_decodes(frames[j])),
        is_payload(frames[i]),
        !payload_decodes(frames[i]),
        c + payload_count(frames.take(i)) < target,
    ensures
        run_outcome_from(PhaseView::Timing(c), frames, target) == OutcomeView::Abort(
            RunError::Decode(FailPoint::Steady),
        ),
    decreases i,
{
    if i > 0 {
        assert(frames.take(i).drop_first() =~= frames.drop_first().take(i - 1));
        assert(frames.take(i)[0] == frames[0]);
        if is_payload(frames[0]) {
            lemma_malformed_from_timed(frames.drop_first(), i - 1, c + 1, target);
        } else {
            lemma_malformed_from_timed(frames.drop_first(), i - 1, c, target);
        }
    }
}

/// A malformed payload at any point of the stream — the warm-up
/// message included — aborts the run with a decode error and no
/// result. Position `i` is the first frame that is malformed; nothing
/// before it closed or failed, and the run has not completed by then
/// (the stream carries at most `target` payloads before `i`). The
/// error names the point of failure: the warm-up when no payload
/// preceded, else the timed steady state.
pub proof fn lemma_malformed_aborts(frames: Seq<FrameView>, i: int, target: nat)
    requires
        target >= 1,
        0 <= i < frames.len(),
        forall|j: int|
            0 <= j < i ==> !((#[trigger] frames[j]) is Closed) && !(frames[j] is Failed) && (
            is_payload(frames[j]) ==> payload_decodes(frames[j])),
        is_payload(frames[i]),
        !payload_decodes(frames[i]),
        payload_count(frames.take(i)) <= target,
    ensures
        run_outcome(frames, target) == OutcomeView::Abort(
            RunError::Decode(
                if payload_count(frames.take(i)) == 0 {
                    FailPoint::Warmup
                } else {
                    FailPoint::Steady
                },
            ),
        ),
    decreases i,
{
    if i > 0 {
        assert(frames.take(i).drop_first() =~= frames.drop_first().take(i - 1));
        assert(frames.take(i)[0] == frames[0]);
        if is_payload(frames[0]) {
            lemma_malformed_from_timed(frames.drop_first(), i - 1, 0, target);
        } else {
            lemma_malformed_aborts(frames.drop_first(), i - 1, target);
        }
    }
}

/// One stream throughput run in progress. The timer is owned by the
/// run: it starts the moment the warm-up message has decoded and is
/// read once, when the run ends — so the warm-up message is excluded
/// from both the count and the measurement window.
pub struct StreamRun {
    target: u64,
    warmed: bool,
    count: u64,
    started: Option<std::time::Instant>,
    done: bool,
}

impl StreamRun {
    /// Internal invariant of a run in progress.
    pub closed spec fn wf(self) -> bool {
        &&& self.target >= 1
        &&& self.count <= self.target
        &&& (!self.warmed ==> self.count == 0)
        &&& (self.warmed <==> self.started is Some)
        &&& (!self.done ==> self.count < self.target)
    }

    /// The phase this run stands at, in the terms of [`advance`].
    pub closed spec fn phase(self) -> PhaseView {
        if self.done {
            PhaseView::Finished
        } else if !self.warmed {
            PhaseView::Warming
        } else {
            PhaseView::Timing(self.count as nat)
        }
    }

    /// The target count this run was started with.
    pub closed spec fn target_spec(self) -> nat {
        self.target as nat
    }

    /// Starts a run that will count `target` post-warm-up messages.
    pub fn new(target: u64) -> (r: StreamRun)
        requires
            target >= 1,
        ensures
            r.wf(),
            r.phase() == PhaseView::Warming,
            r.target_spec() == target,
    {
        StreamRun { target, warmed: false, count: 0, started: None, done: false }
    }

    /// Reads the timer of a run that is ending. A run that closed while
    /// still warming never started its timer; its window is empty and
    /// reads as zero (rounded up to one nanosecond by the result).
    fn window_nanos(&self) -> u64 {
        match &self.started {
            Some(t) => elapsed_nanos_of(t),
            None => 0,
        }
    }

    /// Feeds one arriving frame to the run. The transition is exactly
    /// one [`advance`] step, and the return value reflects its outcome:
    /// `None` while the run goes on, otherwise the run's result or its
    /// error.
    pub fn on_frame(&mut self, frame: &Frame) -> (r: Option<Result<RunResult, RunError>>)
        requires
            old(self).wf(),
            !(old(self).phase() is Finished),
        ensures
            final(self).wf(),
            final(self).target_spec() == old(self).target_spec(),
            final(self).phase() == advance(old(self).phase(), frame@, old(self).target_spec()).0,
            reflects(r, advance(old(self).phase(), frame@, old(self).target_spec()).1),
    {
        match frame {
            Frame::Control => None,
            Frame::Closed => {
                let nanos = self.window_nanos();
                self.done = true;
                Some(Ok(RunResult::from_window(self.count, nanos)))
            },
            Frame::Failed => {
                let at = if self.warmed {
                    FailPoint::Steady
                } else {
                    FailPoint::Warmup
                };
                self.done = true;
                Some(Err(RunError::Connection(at)))
            },
            Frame::Text(s) => {
                let ok = json_text_parses(s.as_str());
                self.on_payload(ok)
            },
            Frame::Binary(b) => {
                let ok = json_bytes_parses(b.as_slice());
                self.on_payload(ok)
            },
        }
    }

    /// The payload arm of [`on_frame`]: `decode_ok` says whether the
    /// payload decoded, and the transition is the payload arm of
    /// [`advance`].
    fn on_payload(&mut self, decode_ok: bool) -> (r: Option<Result<RunResult, RunError>>)
        requires
            old(self).wf(),
            !(old(self).phase() is Finished),
        ensures
            final(self).wf(),
            final(self).target_spec() == old(self).target_spec(),
            ({
                let stepped = if old(self).phase() is Warming {
                    if decode_ok {
                        (PhaseView::Timing(0), OutcomeView::Proceed)
                    } else {
                        (
                            PhaseView::Finished,
                            OutcomeView::Abort(RunError::Decode(FailPoint::Warmup)),
                        )
                    }
                } else {
                    let c = old(self).phase()->Timing_0;
                    if decode_ok {
                        if c + 1 == old(self).target_spec() {
                            (PhaseView::Finished, OutcomeView::Done(old(self).target_spec()))
                        } else {
                            (PhaseView::Timing(c + 1), OutcomeView::Proceed)
                        }
                    } else {
                        (
                            PhaseView::Finished,
                            OutcomeView::Abort(RunError::Decode(FailPoint::Steady)),
                        )
                    }
                };
                final(self).phase() == stepped.0 && reflects(r, stepped.1)
            }),
    {
        if !self.warmed {
            if decode_ok {
                self.warmed = true;
                self.started = Some(std::time::Instant::now());
                None
            } else {
                self.done = true;
                Some(Err(RunError::Decode(FailPoint::Warmup)))
            }
        } else {
            if decode_ok {
                self.count = self.count + 1;
                if self.count == self.target {
                    let nanos = self.window_nanos();
                    self.done = true;
                    Some(Ok(RunResult::from_window(self.count, nanos)))
                } else {
                    None
                }
            } else {
                self.done = true;
                Some(Err(RunError::Decode(FailPoint::Steady)))
            }
        }
    }
}

/// Consumes an already-received stream of frames, in arrival order, as
/// one run: exactly the fold of [`advance`] that [`run_outcome`]
/// defines. `None` means the stream ran out while the run was still
/// pending (a live source would keep the run waiting); otherwise the
/// run's result or its error is returned as [`StreamRun::on_frame`]
/// reports it.
pub fn run_on_frames(frames: &Vec<Frame>, target: u64) -> (r: Option<Result<RunResult, RunError>>)
    requires
        target >= 1,
    ensures
        reflects(r, run_outcome(frames@.map_values(|f: Frame| f@), target as nat)),
{
    let ghost views = frames@.map_values(|f: Frame| f@);
    let mut run = StreamRun::new(target);
    let mut i: usize = 0;
    proof {
        assert(views.skip(0) =~= views);
    }
    while i < frames.len()
        invariant
            target >= 1,
            i <= frames.len(),
            views == frames@.map_values(|f: Frame| f@),
            views.len() == frames@.len(),
            run.wf(),
            run.target_spec() == target as nat,
            !(run.phase() is Finished),
            run_outcome_from(run.phase(), views.skip(i as int), target as nat) == run_outcome(
                views,
                target as nat,
            ),
        decreases frames.len() - i,
    {
        let step = run.on_frame(&frames[i]);
        proof {
            assert(views.skip(i as int)[0] == views[i as int]);
            assert(views.skip(i as int).drop_first() =~= views.skip(i as int + 1));
        }
        if let Some(outcome) = step {
            return Some(outcome);
        }
        i = i + 1;
    }
    None
}

} // verus!
