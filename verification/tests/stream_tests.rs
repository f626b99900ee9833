use firehose_bench::run_result::RunResult;
use firehose_bench::stream::{run_on_frames, FailPoint, Frame, RunError, StreamRun};

fn valid_text() -> Frame {
    Frame::Text(String::from("{\"p\": 2500.50, \"v\": 100}"))
}

fn malformed_text() -> Frame {
    Frame::Text(String::from("{\"p\": 2500.50, \"v\":"))
}

fn stream_of(valid: usize) -> Vec<Frame> {
    let mut frames: Vec<Frame> = Vec::new();
    for _ in 0..valid {
        frames.push(valid_text());
    }
    frames
}

#[test]
fn completes_at_target_with_one_extra_message() {
    // 100_001 valid messages: one warm-up, then 100_000 counted.
    let frames = stream_of(100_001);
    let r = run_on_frames(&frames, 100_000);
    let res = r.expect("run should finish").expect("run should succeed");
    assert_eq!(res.count, 100_000);
    assert!(res.elapsed_nanos >= 1);
    assert!(res.rate_milli_per_sec() > 0);
}

#[test]
fn pending_without_the_warmup_extra() {
    // Exactly target-many messages: the warm-up eats one, so the run
    // is still pending when the stream runs out.
    let frames = stream_of(100);
    let r = run_on_frames(&frames, 100);
    assert!(r.is_none());
}

#[test]
fn early_close_reports_partial_count() {
    // 50 messages then the source closes: 49 counted after warm-up,
    // and no error is raised.
    let mut frames = stream_of(50);
    frames.push(Frame::Closed);
    let r = run_on_frames(&frames, 100_000);
    let res = r.expect("run should finish").expect("run should succeed");
    assert_eq!(res.count, 49);
}

#[test]
fn close_before_any_message_reports_zero() {
    let frames = vec![Frame::Closed];
    let r = run_on_frames(&frames, 100_000);
    let res = r.expect("run should finish").expect("run should succeed");
    assert_eq!(res.count, 0);
}

#[test]
fn malformed_warmup_aborts() {
    let mut frames = vec![malformed_text()];
    frames.extend((0..10).map(|_| valid_text()));
    let r = run_on_frames(&frames, 5);
    assert_eq!(r, Some(Err(RunError::Decode(FailPoint::Warmup))));
}

#[test]
fn malformed_steady_aborts() {
    let frames = vec![valid_text(), valid_text(), malformed_text(), valid_text()];
    let r = run_on_frames(&frames, 100);
    assert_eq!(r, Some(Err(RunError::Decode(FailPoint::Steady))));
}

#[test]
fn transport_failure_during_warmup() {
    let frames = vec![Frame::Failed];
    let r = run_on_frames(&frames, 100);
    assert_eq!(r, Some(Err(RunError::Connection(FailPoint::Warmup))));
}

#[test]
fn transport_failure_in_steady_state() {
    let frames = vec![valid_text(), valid_text(), Frame::Failed];
    let r = run_on_frames(&frames, 100);
    assert_eq!(r, Some(Err(RunError::Connection(FailPoint::Steady))));
}

#[test]
fn control_frames_are_not_counted() {
    let frames = vec![
        Frame::Control,
        valid_text(), // warm-up
        Frame::Control,
        valid_text(),
        Frame::Control,
        valid_text(),
    ];
    let r = run_on_frames(&frames, 2);
    let res = r.expect("run should finish").expect("run should succeed");
    assert_eq!(res.count, 2);
}

#[test]
fn binary_payloads_count() {
    let doc = b"{\"p\": 1, \"v\": 2}".to_vec();
    let frames = vec![
        Frame::Binary(doc.clone()),
        Frame::Binary(doc.clone()),
        Frame::Binary(doc),
    ];
    let r = run_on_frames(&frames, 2);
    let res = r.expect("run should finish").expect("run should succeed");
    assert_eq!(res.count, 2);
}

#[test]
fn binary_malformed_aborts() {
    let frames = vec![
        Frame::Binary(b"{\"p\": 1}".to_vec()),
        Frame::Binary(vec![0xff, 0xfe, 0x00]),
    ];
    let r = run_on_frames(&frames, 5);
    assert_eq!(r, Some(Err(RunError::Decode(FailPoint::Steady))));
}

#[test]
fn step_by_step_run_reaches_target() {
    let mut run = StreamRun::new(3);
    assert!(run.on_frame(&valid_text()).is_none()); // warm-up
    assert!(run.on_frame(&valid_text()).is_none());
    assert!(run.on_frame(&Frame::Control).is_none());
    assert!(run.on_frame(&valid_text()).is_none());
    let r = run.on_frame(&valid_text());
    let res = r.expect("run should finish").expect("run should succeed");
    assert_eq!(res.count, 3);
    assert!(res.elapsed_nanos >= 1);
}

#[test]
fn rate_is_exact_rational() {
    // 4 messages over exactly 2 seconds: 2.000 messages per second.
    let res = RunResult {
        count: 4,
        elapsed_nanos: 2_000_000_000,
    };
    assert_eq!(res.rate_milli_per_sec(), 2_000);
    // And the per-operation figure: 2s / 4 = 500ms each, in picoseconds.
    assert_eq!(res.per_op_picos(), 500_000_000_000);
}

#[test]
fn rate_rounds_toward_zero() {
    // 1 message over 3 seconds: 0.333... messages per second.
    let res = RunResult {
        count: 1,
        elapsed_nanos: 3_000_000_000,
    };
    assert_eq!(res.rate_milli_per_sec(), 333);
}

#[test]
fn zero_window_is_rounded_up() {
    let res = RunResult::from_window(5, 0);
    assert_eq!(res.elapsed_nanos, 1);
    assert_eq!(res.count, 5);
    let kept = RunResult::from_window(5, 17);
    assert_eq!(kept.elapsed_nanos, 17);
}
