//! The iteration governor: the shared policy that bounds how many
//! refinement steps any solver may take.

use vstd::prelude::*;

verus! {

/// The hard ceiling on refinement steps, the largest value an 8-bit signed
/// counter can hold.  Reaching it without convergence is a terminal
/// `NonConvergence` failure.
pub const ITERATION_CAP: i8 = 127;

/// Whether a counter standing at `i` permits one more refinement step.
pub open spec fn step_permitted(i: i8) -> bool {
    i < ITERATION_CAP
}

/// Decide whether another refinement step is permitted for counter `i`.
pub fn may_step(i: i8) -> (permitted: bool)
    ensures
        permitted == step_permitted(i),
{
    i < ITERATION_CAP
}

} // verus!
