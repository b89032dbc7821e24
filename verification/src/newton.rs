//! Newton's method: a fixed-point iteration `x - f(x) / f'(x)` seeded by a
//! single guess, with an explicit derivative supplied by the caller.

use vstd::prelude::*;
use crate::governor::{ITERATION_CAP, may_step, step_permitted};
use crate::outcome::{SolverError, Transition, advances_within_cap, nonconvergence_exactly_at_cap};

verus! {

/// What the caller's arithmetic reports about one Newton round at the
/// current estimate `x`: the update `next = x - f(x) / f'(x)`, whether the
/// convergence predicate `|next - x| + |f(x)| < 1e-8` holds, and whether
/// the derivative magnitude `|f'(x)|` exceeds `1e-6`, the floor below
/// which the division is numerically unreliable.
#[derive(Clone, Copy, Debug, PartialEq)]
pub struct NewtonObservation<X> {
    pub next: X,
    pub converged: bool,
    pub derivative_usable: bool,
}

/// The transition one Newton step takes from estimate `x` with counter `i`
/// under observation `o`.  Convergence is tested first and returns the
/// already-computed update; then the cap; then the derivative floor, whose
/// violation is the method's own `DerivativeTooSmall` failure.
pub open spec fn newton_step_spec<X>(x: X, i: i8, o: NewtonObservation<X>) -> Transition<X, X> {
    if o.converged {
        Transition::Converged(o.next, i)
    } else if !step_permitted(i) {
        Transition::Failed(SolverError::NonConvergence(i))
    } else if o.derivative_usable {
        Transition::Advance(o.next, (i + 1) as i8)
    } else {
        Transition::Failed(SolverError::DerivativeTooSmall)
    }
}

/// Take one Newton step.
pub fn newton_step<X: Copy>(x: X, i: i8, o: NewtonObservation<X>) -> (t: Transition<X, X>)
    ensures
        t == newton_step_spec(x, i, o),
{
    if o.converged {
        Transition::Converged(o.next, i)
    } else if !may_step(i) {
        Transition::Failed(SolverError::NonConvergence(i))
    } else if o.derivative_usable {
        Transition::Advance(o.next, i + 1)
    } else {
        Transition::Failed(SolverError::DerivativeTooSmall)
    }
}

/// `r` is a possible outcome of running Newton's method from estimate `x`
/// with counter `i`: some observation `observe` can report of `x` drives
/// one step, and `r` is that step's terminal answer or a possible outcome
/// of running on from the advanced estimate.
pub open spec fn is_newton_run<X, F: Fn(X) -> NewtonObservation<X>>(
    observe: F,
    x: X,
    i: i8,
    r: Result<(X, i8), SolverError>,
) -> bool
    decreases ITERATION_CAP - i, 1int,
{
    exists|o: NewtonObservation<X>|
        #[trigger] call_ensures(observe, (x,), o) && newton_run_goes_on(observe, x, i, o, r)
}

/// After observation `o` of estimate `x` at counter `i`, `r` is the step's
/// terminal answer, or a possible outcome of running on from the advanced
/// estimate.
pub open spec fn newton_run_goes_on<X, F: Fn(X) -> NewtonObservation<X>>(
    observe: F,
    x: X,
    i: i8,
    o: NewtonObservation<X>,
    r: Result<(X, i8), SolverError>,
) -> bool
    decreases ITERATION_CAP - i, 0int,
{
    match newton_step_spec(x, i, o) {
        Transition::Converged(root, n) => r == Ok::<(X, i8), SolverError>((root, n)),
        Transition::Failed(e) => r == Err::<(X, i8), SolverError>(e),
        Transition::Advance(next, j) => is_newton_run(observe, next, j, r),
    }
}

/// Run Newton's method from the estimate `seed` with the counter starting
/// at `start`, asking `observe` for one round of measurements per step.
///
/// The result is a run of the step relation over observations `observe`
/// can produce.  In particular, whatever the observations are: a reported
/// non-convergence count is
/// exactly the iteration cap; the only failures are `DerivativeTooSmall`
/// and `NonConvergence`; and success returns the update of an observation
/// that reported convergence, with a count no smaller than `start`.
pub fn newton<X: Copy, F: Fn(X) -> NewtonObservation<X>>(observe: F, seed: X, start: i8) -> (r:
    Result<(X, i8), SolverError>)
    requires
        forall|s: (X,)| call_requires(observe, s),
    ensures
        is_newton_run(observe, seed, start, r),
        r matches Err(e) ==> (e == SolverError::DerivativeTooSmall || e matches SolverError::NonConvergence(_)),
        r matches Err(SolverError::NonConvergence(n)) ==> n == ITERATION_CAP,
        r matches Ok(p) ==> start <= p.1,
        r matches Ok(p) ==> exists|s: (X,), o: NewtonObservation<X>|
            call_ensures(observe, s, o) && o.converged && p.0 == o.next,
{
    let mut current: X = seed;
    let mut i: i8 = start;
    loop
        invariant
            forall|s: (X,)| call_requires(observe, s),
            start <= i,
            forall|r2: Result<(X, i8), SolverError>|
                #[trigger] is_newton_run(observe, current, i, r2) ==> is_newton_run(
                    observe,
                    seed,
                    start,
                    r2,
                ),
        decreases ITERATION_CAP - i,
    {
        let o = observe(current);
        match newton_step(current, i, o) {
            Transition::Converged(x, n) => {
                proof {
                    assert(is_newton_run(observe, current, i, Ok::<(X, i8), SolverError>((x, n))));
                }
                return Ok((x, n));
            },
            Transition::Failed(e) => {
                proof {
                    assert(is_newton_run(observe, current, i, Err::<(X, i8), SolverError>(e)));
                }
                return Err(e);
            },
            Transition::Advance(next, j) => {
                proof {
                    assert forall|r2: Result<(X, i8), SolverError>|
                        #[trigger] is_newton_run(observe, next, j, r2) implies is_newton_run(
                        observe,
                        seed,
                        start,
                        r2,
                    ) by {
                        assert(is_newton_run(observe, current, i, r2));
                    }
                }
                current = next;
                i = j;
            },
        }
    }
}

/// Determinism of the step: equal estimates, counters and observations give
/// equal transitions — nothing carries over between calls.
pub proof fn lemma_newton_deterministic<X>(
    x1: X,
    i1: i8,
    o1: NewtonObservation<X>,
    x2: X,
    i2: i8,
    o2: NewtonObservation<X>,
)
    requires
        x1 == x2,
        i1 == i2,
        o1 == o2,
    ensures
        newton_step_spec(x1, i1, o1) == newton_step_spec(x2, i2, o2),
{
}

/// Idempotence at the solver level: under an observer that reports exactly
/// one observation per estimate — as any pure arithmetic does — a run from
/// given seeds has exactly one outcome, so two calls of `newton` with
/// identical inputs return identical results.
pub proof fn lemma_newton_run_unique<X, F: Fn(X) -> NewtonObservation<X>>(
    observe: F,
    x: X,
    i: i8,
    r1: Result<(X, i8), SolverError>,
    r2: Result<(X, i8), SolverError>,
)
    requires
        forall|s: (X,), oa: NewtonObservation<X>, ob: NewtonObservation<X>|
            call_ensures(observe, s, oa) && call_ensures(observe, s, ob) ==> oa == ob,
        is_newton_run(observe, x, i, r1),
        is_newton_run(observe, x, i, r2),
    ensures
        r1 == r2,
    decreases ITERATION_CAP - i,
{
    let o1 = choose|o: NewtonObservation<X>|
        #[trigger] call_ensures(observe, (x,), o) && newton_run_goes_on(observe, x, i, o, r1);
    let o2 = choose|o: NewtonObservation<X>|
        #[trigger] call_ensures(observe, (x,), o) && newton_run_goes_on(observe, x, i, o, r2);
    assert(o1 == o2);
    match newton_step_spec(x, i, o1) {
        Transition::Advance(next, j) => {
            lemma_newton_run_unique(observe, next, j, r1, r2);
        },
        _ => {
        },
    }
}

/// The governor's law at each step: the counter never advances past the
/// cap, and a non-convergence failure reports exactly the cap.
pub proof fn lemma_newton_governed<X>(x: X, i: i8, o: NewtonObservation<X>)
    ensures
        advances_within_cap(newton_step_spec(x, i, o)),
        nonconvergence_exactly_at_cap(newton_step_spec(x, i, o)),
{
}

/// Success is only ever declared on a converged observation, returns that
/// observation's update, and consumes no iteration.
pub proof fn lemma_newton_success_is_converged<X>(x: X, i: i8, o: NewtonObservation<X>)
    ensures
        newton_step_spec(x, i, o) matches Transition::Converged(r, n) ==> (o.converged && r
            == o.next && n == i),
{
}

/// An unusable derivative is reported as `DerivativeTooSmall` rather than
/// divided by — but only when neither convergence nor the cap ended the
/// call first.
pub proof fn lemma_newton_rejects_small_derivative<X>(x: X, i: i8, o: NewtonObservation<X>)
    requires
        !o.converged,
        step_permitted(i),
        !o.derivative_usable,
    ensures
        newton_step_spec(x, i, o) == Transition::<X, X>::Failed(SolverError::DerivativeTooSmall),
{
}

} // verus!
