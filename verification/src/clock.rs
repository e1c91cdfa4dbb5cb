//! The fixed-timestep accumulator: real elapsed time goes in, whole
//! simulation steps come out, and the remainder is carried so that no time is
//! lost however unevenly the frames arrive.

use vstd::prelude::*;

verus! {

/// Simulation steps per second.
pub const STEPS_PER_SECOND: u64 = 60;

/// Nanoseconds per second.
pub const NANOS_PER_SECOND: u64 = 1_000_000_000;

/// Largest elapsed time accepted per call, so that the scaled accumulator
/// stays within a machine word (about nine years of nanoseconds).
pub const MAX_ELAPSED_NANOS: u64 = 0x0400_0000_0000_0000;

/// The accumulator.  `residual` carries the time fed in but not yet paid out
/// as steps, scaled by the step rate: it holds elapsed-nanoseconds times
/// [`STEPS_PER_SECOND`], reduced modulo [`NANOS_PER_SECOND`], so a step is due
/// each time it reaches a whole second's worth.
pub struct FrameClock {
    pub residual: u64,
}

impl FrameClock {
    /// The residual is always strictly less than one whole step's worth.
    pub open spec fn wf(&self) -> bool {
        self.residual < NANOS_PER_SECOND
    }

    /// A clock with nothing carried over.
    pub fn new() -> (c: FrameClock)
        ensures
            c.residual == 0,
            c.wf(),
    {
        FrameClock { residual: 0 }
    }

    /// Feed the clock the nanoseconds elapsed since the last call and get the
    /// number of simulation steps now due: the whole steps in the carried
    /// time, with the remainder carried on.  Over any run the steps paid out
    /// total the floor of elapsed seconds times the step rate.
    pub fn steps_due(&mut self, elapsed_nanos: u64) -> (steps: u64)
        requires
            old(self).wf(),
            elapsed_nanos <= MAX_ELAPSED_NANOS,
        ensures
            steps == (old(self).residual + elapsed_nanos * STEPS_PER_SECOND) / (
            NANOS_PER_SECOND as int),
            final(self).residual == (old(self).residual + elapsed_nanos * STEPS_PER_SECOND) % (
            NANOS_PER_SECOND as int),
            final(self).wf(),
    {
        let scaled: u64 = self.residual + elapsed_nanos * STEPS_PER_SECOND;
        let steps: u64 = scaled / NANOS_PER_SECOND;
        self.residual = scaled % NANOS_PER_SECOND;
        steps
    }
}

} // verus!
