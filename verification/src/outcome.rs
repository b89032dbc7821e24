//! The shared result vocabulary of the solvers: the failure taxonomy and
//! the transition a single refinement step produces.

use vstd::prelude::*;
use crate::governor::ITERATION_CAP;

verus! {

/// Why a solver call ended without a root.  Every failure is terminal and
/// carries no estimate: a caller is never handed an unreliable number.
#[derive(Clone, Copy, Debug, PartialEq, Eq, Structural)]
pub enum SolverError {
    /// A bracketing method's endpoints do not straddle a sign change.
    BracketInvalid,
    /// Newton's method only: the derivative magnitude at the current point
    /// is too small for a reliable division.
    DerivativeTooSmall,
    /// The secant method only: the two most recent function values are too
    /// close for a reliable slope.
    SecantDegenerate,
    /// Muller's method or inverse quadratic iteration only: the model's
    /// next estimate is not a real number.
    ComplexRoot,
    /// The iteration governor's cap was reached; carries the count reached.
    NonConvergence(i8),
}

/// What one refinement step decided: terminal success with the estimate and
/// the iteration count, one more step from a new state with the counter
/// advanced, or a terminal failure.
#[derive(Clone, Copy, Debug, PartialEq)]
pub enum Transition<S, X> {
    Converged(X, i8),
    Advance(S, i8),
    Failed(SolverError),
}

/// A transition never advances the counter beyond the iteration cap.
pub open spec fn advances_within_cap<S, X>(t: Transition<S, X>) -> bool {
    t matches Transition::Advance(_, j) ==> j <= ITERATION_CAP
}

/// A non-convergence failure reports a count of exactly the iteration cap.
pub open spec fn nonconvergence_exactly_at_cap<S, X>(t: Transition<S, X>) -> bool {
    t matches Transition::Failed(SolverError::NonConvergence(n)) ==> n == ITERATION_CAP
}

} // verus!
