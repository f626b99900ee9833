//! A performance-measurement harness with two independent components:
//! a stream throughput benchmark (messages per second over a live
//! connection, with one warm-up message excluded from the measurement
//! window) and a micro-benchmark kernel runner (per-iteration cost of a
//! pure computational kernel). Both report a [`run_result::RunResult`];
//! time is kept in whole nanoseconds so that the derived figures are
//! exact rationals.

pub mod decode;
pub mod kernel;
pub mod run_result;
pub mod stream;
pub mod timing;
