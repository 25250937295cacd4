//! The probabilistic gate: a random draw compared against a threshold.
//!
//! Probabilities are fractions over [`GATE_SCALE`]. A draw is the numerator
//! of a uniformly distributed fraction in the half-open unit interval; a
//! threshold is the numerator of the chance that a draw is admitted.

use rand::Rng;
use vstd::prelude::*;

verus! {

/// The common denominator of draws and thresholds, two to the power 53:
/// the number of evenly spaced values that a uniform draw from the unit
/// interval takes in double precision.
pub const GATE_SCALE: u64 = 9007199254740992;

/// A gate that admits a draw when it lies strictly below the threshold.
#[derive(Clone, Copy, Debug)]
pub struct Gate {
    /// Numerator of the chance of admission. At `GATE_SCALE` or above, every
    /// draw below the scale is admitted; at zero, none is.
    pub threshold: u64,
}

impl Gate {
    /// Whether `draw` lies below the threshold.
    pub open spec fn spec_admits(self, draw: u64) -> bool {
        draw < self.threshold
    }

    /// A gate with the given threshold.
    pub fn new(threshold: u64) -> (gate: Gate)
        ensures
            gate.threshold == threshold,
    {
        Gate { threshold }
    }

    /// A gate that admits one draw in four.
    pub fn quarter() -> (gate: Gate)
        ensures
            gate.threshold * 4 == GATE_SCALE,
    {
        Gate { threshold: GATE_SCALE / 4 }
    }

    /// A gate that admits every draw below the scale.
    pub fn always() -> (gate: Gate)
        ensures
            gate.threshold == GATE_SCALE,
    {
        Gate { threshold: GATE_SCALE }
    }

    /// Whether `draw` lies below the threshold.
    #[verifier::when_used_as_spec(spec_admits)]
    pub fn admits(self, draw: u64) -> (admitted: bool)
        ensures
            admitted == self.spec_admits(draw),
    {
        draw < self.threshold
    }
}

impl Default for Gate {
    /// By default, one draw in four is admitted.
    fn default() -> (gate: Gate)
        ensures
            gate.threshold * 4 == GATE_SCALE,
    {
        Gate::quarter()
    }
}

/// Calls `rand::Rng::gen_range` on `rand::thread_rng()` with the half-open
/// range from zero to `high`. The crate samples from within the range it is
/// given, so the value lies below `high`; it panics on an empty range, which
/// the precondition excludes. Which value comes back is left open.
#[verifier::external_body]
fn draw_below(high: u64) -> (value: u64)
    requires
        high > 0,
    ensures
        value < high,
{
    rand::thread_rng().gen_range(0..high)
}

/// Draws a fresh gate value from the thread's random generator.
pub fn draw() -> (value: u64)
    ensures
        value < GATE_SCALE,
{
    draw_below(GATE_SCALE)
}

/// A gate whose threshold is at or above the scale admits every draw that
/// the random generator can give, and a gate whose threshold is zero admits
/// none.
pub proof fn extreme_thresholds(gate: Gate, draw: u64)
    requires
        draw < GATE_SCALE,
    ensures
        gate.threshold >= GATE_SCALE ==> gate.admits(draw),
        gate.threshold == 0 ==> !gate.admits(draw),
{
}

} // verus!
