use firehose_bench::kernel::{run_kernel, CallLog, Kernel};

struct CountingKernel {
    invocations: u64,
    sum: u64,
    last_index: Option<u64>,
}

impl Kernel for CountingKernel {
    // Ghost members of the Kernel trait: they have no run-time
    // meaning and are never called.
    fn calls(&self) -> CallLog {
        unreachable!()
    }

    fn acc_spec(&self) -> u64 {
        unreachable!()
    }

    fn step(&mut self, i: u64) {
        self.invocations += 1;
        self.sum = self.sum.wrapping_add(i);
        self.last_index = Some(i);
    }

    fn accumulator(&self) -> u64 {
        self.sum
    }
}

struct MathKernel {
    acc: f64,
}

impl Kernel for MathKernel {
    // Ghost members of the Kernel trait: they have no run-time
    // meaning and are never called.
    fn calls(&self) -> CallLog {
        unreachable!()
    }

    fn acc_spec(&self) -> u64 {
        unreachable!()
    }

    fn step(&mut self, i: u64) {
        let val = (i as f64) * 1.05;
        self.acc += val.sqrt() / 3.14159;
    }

    fn accumulator(&self) -> u64 {
        self.acc.to_bits()
    }
}

struct TrigKernel {
    price: f64,
    acc: f64,
}

impl Kernel for TrigKernel {
    // Ghost members of the Kernel trait: they have no run-time
    // meaning and are never called.
    fn calls(&self) -> CallLog {
        unreachable!()
    }

    fn acc_spec(&self) -> u64 {
        unreachable!()
    }

    fn step(&mut self, i: u64) {
        let val = (i as f64) * self.price;
        self.acc += val.sin() * val.cos();
    }

    fn accumulator(&self) -> u64 {
        self.acc.to_bits()
    }
}

struct ParsingKernel {
    acc: f64,
}

impl Kernel for ParsingKernel {
    // Ghost members of the Kernel trait: they have no run-time
    // meaning and are never called.
    fn calls(&self) -> CallLog {
        unreachable!()
    }

    fn acc_spec(&self) -> u64 {
        unreachable!()
    }

    fn step(&mut self, _i: u64) {
        let s = "{\"p\": 2500.50, \"v\": 100}";
        let p: f64 = s[6..13].parse().unwrap();
        self.acc += p;
    }

    fn accumulator(&self) -> u64 {
        self.acc.to_bits()
    }
}

#[test]
fn kernel_runs_exactly_n_invocations() {
    let mut k = CountingKernel {
        invocations: 0,
        sum: 0,
        last_index: None,
    };
    let (res, observed) = run_kernel(&mut k, 5);
    assert_eq!(res.count, 5);
    assert_eq!(k.invocations, 5);
    assert_eq!(k.last_index, Some(4));
    // Indices 0..5 were folded in: 0 + 1 + 2 + 3 + 4.
    assert_eq!(observed, 10);
    assert!(res.elapsed_nanos >= 1);
}

#[test]
fn math_kernel_million_iterations() {
    let mut k = MathKernel { acc: 0.0 };
    let (res, observed) = run_kernel(&mut k, 1_000_000);
    assert_eq!(res.count, 1_000_000);
    // The per-operation figure is strictly positive and finite.
    assert!(res.per_op_picos() > 0);
    // The accumulator was really computed and observed.
    assert!(f64::from_bits(observed).is_finite());
    assert!(f64::from_bits(observed) > 0.0);
}

#[test]
fn trig_kernel_accumulates_finite_value() {
    let mut k = TrigKernel {
        price: 2500.50,
        acc: 0.0,
    };
    let (res, observed) = run_kernel(&mut k, 10_000);
    assert_eq!(res.count, 10_000);
    assert!(f64::from_bits(observed).is_finite());
    assert!(res.elapsed_nanos >= 1);
}

#[test]
fn parsing_kernel_folds_parsed_values() {
    let mut k = ParsingKernel { acc: 0.0 };
    let (res, observed) = run_kernel(&mut k, 1_000);
    assert_eq!(res.count, 1_000);
    // Repeated float addition rounds, so compare up to a small error.
    assert!((f64::from_bits(observed) - 2500.50 * 1000.0).abs() < 1.0);
    assert!(res.rate_milli_per_sec() > 0);
}

#[test]
fn independent_runs_keep_independent_accumulators() {
    let mut a = CountingKernel {
        invocations: 0,
        sum: 0,
        last_index: None,
    };
    let mut b = CountingKernel {
        invocations: 0,
        sum: 0,
        last_index: None,
    };
    let (ra, oa) = run_kernel(&mut a, 3);
    let (rb, ob) = run_kernel(&mut b, 4);
    assert_eq!(ra.count, 3);
    assert_eq!(rb.count, 4);
    assert_eq!(oa, 3);
    assert_eq!(ob, 6);
}
