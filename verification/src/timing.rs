//! The timer behind every measurement window: a monotonic start instant
//! taken from `std::time::Instant`, read once at the end of the window.
//!
//! Nothing is assumed about the values the clock yields — a duration
//! depends on when it is read — so every caller's contract holds
//! whatever the clock returned. The only fact taken from the standard
//! library's documentation is that the sub-second part of a duration is
//! below one billion nanoseconds.

use vstd::prelude::*;

verus! {

#[verifier::external_type_specification]
#[verifier::external_body]
pub struct ExInstant(std::time::Instant);

/// Relies on std::time::Instant::now for a monotonic clock reading;
/// the value depends on the time, so nothing is assumed of it.
pub assume_specification[ std::time::Instant::now ]() -> std::time::Instant;

/// Relies on std::time::Instant::elapsed for the duration since the
/// instant; the value depends on the time, so nothing is assumed of it.
pub assume_specification[ std::time::Instant::elapsed ](t: &std::time::Instant) -> core::time::Duration;

/// Relies on core::time::Duration::as_secs: the whole-second part of the
/// duration. The duration is opaque here, so nothing is assumed of it.
pub assume_specification[ core::time::Duration::as_secs ](d: &core::time::Duration) -> u64;

/// Relies on core::time::Duration::subsec_nanos: the fractional part of
/// the duration in nanoseconds, documented to be below one billion.
pub assume_specification[ core::time::Duration::subsec_nanos ](d: &core::time::Duration) -> (n: u32)
    ensures
        n < 1_000_000_000,
;

/// Reads how many nanoseconds have passed since `start`, saturating at
/// `u64::MAX` (about 584 years). The value comes from the clock, so no
/// more can be said of it than its type already says.
pub fn elapsed_nanos_of(start: &std::time::Instant) -> u64 {
    let d = start.elapsed();
    let secs = d.as_secs();
    let sub = d.subsec_nanos() as u64;
    if secs <= (u64::MAX - sub) / 1_000_000_000 {
        proof {
            assert(secs * 1_000_000_000 <= u64::MAX - sub) by (nonlinear_arith)
                requires
                    secs <= (u64::MAX - sub) / 1_000_000_000,
                    sub < 1_000_000_000,
            ;
        }
        secs * 1_000_000_000 + sub
    } else {
        u64::MAX
    }
}

} // verus!
