//! The secant method: the slope through the two most recent estimates
//! stands in for the derivative.

use vstd::prelude::*;
use crate::governor::{ITERATION_CAP, may_step, step_permitted};
use crate::outcome::{SolverError, Transition, advances_within_cap, nonconvergence_exactly_at_cap};

verus! {

/// What the caller's arithmetic reports about one secant round over the
/// pair `(x0, x1)`: the update
/// `next = x1 - f(x1) * ((x1 - x0) / (f(x1) - f(x0)))`, whether the
/// convergence predicate `|x1 - x0| + |f(x1)| < 1e-8` holds, and whether
/// `|f(x1) - f(x0)|` exceeds `1e-8` — near-equal function values make the
/// secant slope unreliable.
#[derive(Clone, Copy, Debug, PartialEq)]
pub struct SecantObservation<X> {
    pub next: X,
    pub converged: bool,
    pub slope_usable: bool,
}

/// The transition one secant step takes from `pair` with counter `i` under
/// observation `o`.  Convergence is tested on the pair first, so the value
/// accepted is the already-computed update, not a stale point; a degenerate
/// slope is the method's own `SecantDegenerate` failure; then the cap;
/// otherwise the pair advances.
pub open spec fn secant_step_spec<X>(pair: (X, X), i: i8, o: SecantObservation<X>) -> Transition<
    (X, X),
    X,
> {
    if o.converged {
        Transition::Converged(o.next, i)
    } else if !o.slope_usable {
        Transition::Failed(SolverError::SecantDegenerate)
    } else if !step_permitted(i) {
        Transition::Failed(SolverError::NonConvergence(i))
    } else {
        Transition::Advance((pair.1, o.next), (i + 1) as i8)
    }
}

/// Take one secant step.
pub fn secant_step<X: Copy>(pair: (X, X), i: i8, o: SecantObservation<X>) -> (t: Transition<
    (X, X),
    X,
>)
    ensures
        t == secant_step_spec(pair, i, o),
{
    if o.converged {
        Transition::Converged(o.next, i)
    } else if !o.slope_usable {
        Transition::Failed(SolverError::SecantDegenerate)
    } else if !may_step(i) {
        Transition::Failed(SolverError::NonConvergence(i))
    } else {
        Transition::Advance((pair.1, o.next), i + 1)
    }
}

/// `r` is a possible outcome of running the secant method from `pair` with
/// counter `i`: some observation `observe` can report of `pair` drives one
/// step, and `r` is that step's terminal answer or a possible outcome of
/// running on from the advanced pair.
pub open spec fn is_secant_run<X, F: Fn((X, X)) -> SecantObservation<X>>(
    observe: F,
    pair: (X, X),
    i: i8,
    r: Result<(X, i8), SolverError>,
) -> bool
    decreases ITERATION_CAP - i, 1int,
{
    exists|o: SecantObservation<X>|
        #[trigger] call_ensures(observe, (pair,), o) && secant_run_goes_on(observe, pair, i, o, r)
}

/// After observation `o` of `pair` at counter `i`, `r` is the step's
/// terminal answer, or a possible outcome of running on from the advanced
/// pair.
pub open spec fn secant_run_goes_on<X, F: Fn((X, X)) -> SecantObservation<X>>(
    observe: F,
    pair: (X, X),
    i: i8,
    o: SecantObservation<X>,
    r: Result<(X, i8), SolverError>,
) -> bool
    decreases ITERATION_CAP - i, 0int,
{
    match secant_step_spec(pair, i, o) {
        Transition::Converged(root, n) => r == Ok::<(X, i8), SolverError>((root, n)),
        Transition::Failed(e) => r == Err::<(X, i8), SolverError>(e),
        Transition::Advance(next, j) => is_secant_run(observe, next, j, r),
    }
}

/// Run the secant method from the seed pair `pair` with the counter
/// starting at `start`, asking `observe` for one round of measurements per
/// step.
///
/// The result is a run of the step relation over observations `observe`
/// can produce.  In particular, whatever the observations are: a reported
/// non-convergence count is
/// exactly the iteration cap; the only failures are `SecantDegenerate` and
/// `NonConvergence`; and success returns the update of an observation that
/// reported convergence, with a count no smaller than `start`.
pub fn secant<X: Copy, F: Fn((X, X)) -> SecantObservation<X>>(
    observe: F,
    pair: (X, X),
    start: i8,
) -> (r: Result<(X, i8), SolverError>)
    requires
        forall|s: ((X, X),)| call_requires(observe, s),
    ensures
        is_secant_run(observe, pair, start, r),
        r matches Err(e) ==> (e == SolverError::SecantDegenerate || e matches SolverError::NonConvergence(_)),
        r matches Err(SolverError::NonConvergence(n)) ==> n == ITERATION_CAP,
        r matches Ok(p) ==> start <= p.1,
        r matches Ok(p) ==> exists|s: ((X, X),), o: SecantObservation<X>|
            call_ensures(observe, s, o) && o.converged && p.0 == o.next,
{
    let mut current: (X, X) = pair;
    let mut i: i8 = start;
    loop
        invariant
            forall|s: ((X, X),)| call_requires(observe, s),
            start <= i,
            forall|r2: Result<(X, i8), SolverError>|
                #[trigger] is_secant_run(observe, current, i, r2) ==> is_secant_run(
                    observe,
                    pair,
                    start,
                    r2,
                ),
        decreases ITERATION_CAP - i,
    {
        let o = observe(current);
        match secant_step(current, i, o) {
            Transition::Converged(x, n) => {
                proof {
                    assert(is_secant_run(observe, current, i, Ok::<(X, i8), SolverError>((x, n))));
                }
                return Ok((x, n));
            },
            Transition::Failed(e) => {
                proof {
                    assert(is_secant_run(observe, current, i, Err::<(X, i8), SolverError>(e)));
                }
                return Err(e);
            },
            Transition::Advance(next, j) => {
                proof {
                    assert forall|r2: Result<(X, i8), SolverError>|
                        #[trigger] is_secant_run(observe, next, j, r2) implies is_secant_run(
                        observe,
                        pair,
                        start,
                        r2,
                    ) by {
                        assert(is_secant_run(observe, current, i, r2));
                    }
                }
                current = next;
                i = j;
            },
        }
    }
}

/// Determinism of the step: equal pairs, counters and observations give
/// equal transitions — nothing carries over between calls.
pub proof fn lemma_secant_deterministic<X>(
    p1: (X, X),
    i1: i8,
    o1: SecantObservation<X>,
    p2: (X, X),
    i2: i8,
    o2: SecantObservation<X>,
)
    requires
        p1 == p2,
        i1 == i2,
        o1 == o2,
    ensures
        secant_step_spec(p1, i1, o1) == secant_step_spec(p2, i2, o2),
{
}

/// Idempotence at the solver level: under an observer that reports exactly
/// one observation per pair — as any pure arithmetic does — a run from
/// given seeds has exactly one outcome, so two calls of `secant` with
/// identical inputs return identical results.
pub proof fn lemma_secant_run_unique<X, F: Fn((X, X)) -> SecantObservation<X>>(
    observe: F,
    pair: (X, X),
    i: i8,
    r1: Result<(X, i8), SolverError>,
    r2: Result<(X, i8), SolverError>,
)
    requires
        forall|s: ((X, X),), oa: SecantObservation<X>, ob: SecantObservation<X>|
            call_ensures(observe, s, oa) && call_ensures(observe, s, ob) ==> oa == ob,
        is_secant_run(observe, pair, i, r1),
        is_secant_run(observe, pair, i, r2),
    ensures
        r1 == r2,
    decreases ITERATION_CAP - i,
{
    let o1 = choose|o: SecantObservation<X>|
        #[trigger] call_ensures(observe, (pair,), o) && secant_run_goes_on(observe, pair, i, o, r1);
    let o2 = choose|o: SecantObservation<X>|
        #[trigger] call_ensures(observe, (pair,), o) && secant_run_goes_on(observe, pair, i, o, r2);
    assert(o1 == o2);
    match secant_step_spec(pair, i, o1) {
        Transition::Advance(next, j) => {
            lemma_secant_run_unique(observe, next, j, r1, r2);
        },
        _ => {
        },
    }
}

/// The governor's law at each step: the counter never advances past the
/// cap, and a non-convergence failure reports exactly the cap.
pub proof fn lemma_secant_governed<X>(pair: (X, X), i: i8, o: SecantObservation<X>)
    ensures
        advances_within_cap(secant_step_spec(pair, i, o)),
        nonconvergence_exactly_at_cap(secant_step_spec(pair, i, o)),
{
}

/// Success is only ever declared on a converged observation, returns that
/// observation's update, and consumes no iteration.
pub proof fn lemma_secant_success_is_converged<X>(pair: (X, X), i: i8, o: SecantObservation<X>)
    ensures
        secant_step_spec(pair, i, o) matches Transition::Converged(r, n) ==> (o.converged && r
            == o.next && n == i),
{
}

/// Near-equal function values at the pair are reported as
/// `SecantDegenerate` rather than divided by — but only when convergence
/// did not end the call first.
pub proof fn lemma_secant_rejects_degenerate_slope<X>(pair: (X, X), i: i8, o: SecantObservation<X>)
    requires
        !o.converged,
        !o.slope_usable,
    ensures
        secant_step_spec(pair, i, o) == Transition::<(X, X), X>::Failed(
            SolverError::SecantDegenerate,
        ),
{
}

} // verus!
