//! Fixed-rate pacing arithmetic for the tick loop.
//!
//! The loop targets a fixed tick rate. Each tick measures the time elapsed
//! since the previous tick began (the host reads the clock) and then sleeps
//! for whatever is left of the target period, so a fast frame is slowed to
//! the target rate while a slow frame is never delayed further.

use vstd::prelude::*;

verus! {

pub const NANOS_PER_SECOND: u64 = 1_000_000_000;

/// Pacing state of the tick loop: the target period between tick starts, in
/// nanoseconds. The host supplies the measured elapsed time each tick and
/// performs the sleep this timer asks for.
#[derive(Clone, Copy, Debug, PartialEq, Eq, Structural)]
pub struct FrameTimer {
    pub period_nanos: u64,
}

impl FrameTimer {
    /// A timer that paces the loop to the given whole number of ticks per
    /// second: the period is the second divided by the rate, rounded down.
    pub fn with_target_rate(ticks_per_second: u32) -> (timer: FrameTimer)
        requires
            ticks_per_second >= 1,
        ensures
            timer.period_nanos == NANOS_PER_SECOND as int / ticks_per_second as int,
    {
        FrameTimer { period_nanos: NANOS_PER_SECOND / (ticks_per_second as u64) }
    }

    /// How long the loop must still sleep after a tick that took
    /// `elapsed_nanos`: the remainder of the period, or nothing when the tick
    /// already ran past it. Sleeping this amount caps the loop at the target
    /// rate without penalizing a tick that was late.
    pub fn sleep_nanos(&self, elapsed_nanos: u64) -> (sleep: u64)
        ensures
            elapsed_nanos < self.period_nanos ==> sleep == self.period_nanos - elapsed_nanos,
            elapsed_nanos >= self.period_nanos ==> sleep == 0,
    {
        if elapsed_nanos < self.period_nanos {
            self.period_nanos - elapsed_nanos
        } else {
            0
        }
    }
}

} // verus!
