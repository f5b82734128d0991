//! The scheduler's timing model: two independent accumulators driven by one
//! wall-clock delta, one firing instruction steps at a configurable rate,
//! the other firing timer ticks at exactly 60 Hz. Nothing couples the two:
//! no fixed instructions-per-timer-tick ratio exists anywhere.
//!
//! Each accumulator counts in rate-scaled nanoseconds (elapsed nanoseconds
//! times the rate in Hz), so one full second of accumulation fires exactly
//! `rate` events with no rounding drift.

use vstd::prelude::*;

verus! {

/// Nanoseconds per second: the scale of both accumulators.
pub const NANOS_PER_SECOND: u64 = 1_000_000_000;

/// The timer rate fixed by the machine: 60 ticks per second.
pub const TIMER_RATE_HZ: u64 = 60;

/// Accumulated fuel for the instruction clock and the 60 Hz timer clock.
pub struct Clock {
    /// Configured instruction rate, in instructions per second.
    pub cpu_rate_hz: u64,
    /// Leftover instruction fuel, in nanosecond-times-rate units; always
    /// below one whole event's worth.
    pub cpu_accum: u64,
    /// Leftover timer fuel, in nanosecond-times-60 units; always below one
    /// whole tick's worth.
    pub timer_accum: u64,
}

impl Clock {
    /// A valid clock: a usable rate and accumulators holding less than one
    /// event each.
    pub open spec fn wf(&self) -> bool {
        &&& 1 <= self.cpu_rate_hz <= 1_000_000_000
        &&& self.cpu_accum < 1_000_000_000
        &&& self.timer_accum < 1_000_000_000
    }

    /// A fresh clock with nothing accumulated.
    pub fn new(cpu_rate_hz: u64) -> (r: Clock)
        requires
            1 <= cpu_rate_hz <= 1_000_000_000,
        ensures
            r.wf(),
            r.cpu_rate_hz == cpu_rate_hz,
            r.cpu_accum == 0,
            r.timer_accum == 0,
    {
        Clock { cpu_rate_hz, cpu_accum: 0, timer_accum: 0 }
    }

    /// Feed one wall-clock delta (at most one second) to both accumulators
    /// and say how many instruction steps and how many timer ticks are due:
    /// each accumulator fires once per full second's worth of its own rate
    /// and keeps the exact remainder, so neither rate drifts and neither
    /// depends on the other.
    pub fn advance(&mut self, delta_ns: u64) -> (due: (u64, u64))
        requires
            old(self).wf(),
            delta_ns <= 1_000_000_000,
        ensures
            final(self).wf(),
            final(self).cpu_rate_hz == old(self).cpu_rate_hz,
            due.0 == (old(self).cpu_accum + delta_ns * old(self).cpu_rate_hz) / 1_000_000_000,
            final(self).cpu_accum == (old(self).cpu_accum + delta_ns * old(self).cpu_rate_hz)
                % 1_000_000_000,
            due.1 == (old(self).timer_accum + delta_ns * 60) / 1_000_000_000,
            final(self).timer_accum == (old(self).timer_accum + delta_ns * 60) % 1_000_000_000,
    {
        let rate: u64 = self.cpu_rate_hz;
        proof {
            assert(delta_ns * rate <= 1_000_000_000 * 1_000_000_000) by (nonlinear_arith)
                requires
                    delta_ns <= 1_000_000_000,
                    rate <= 1_000_000_000,
            ;
        }
        let cpu_total: u64 = self.cpu_accum + delta_ns * rate;
        let steps: u64 = cpu_total / 1_000_000_000;
        self.cpu_accum = cpu_total % 1_000_000_000;
        let timer_total: u64 = self.timer_accum + delta_ns * 60;
        let ticks: u64 = timer_total / 1_000_000_000;
        self.timer_accum = timer_total % 1_000_000_000;
        (steps, ticks)
    }
}

} // verus!
