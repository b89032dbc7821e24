//! Muller's method: a quadratic interpolant through the three most recent
//! estimates predicts the next one.

use vstd::prelude::*;
use crate::governor::{ITERATION_CAP, may_step, step_permitted};
use crate::outcome::{SolverError, Transition, advances_within_cap, nonconvergence_exactly_at_cap};

verus! {

/// What the caller's arithmetic reports about one Muller round over the
/// triple `(x0, x1, x2)`: the update
/// `next = x2 + (-2 * f(x2)) / (w -+ d)` built from divided differences,
/// with the denominator of larger magnitude chosen; whether the
/// convergence predicate `|x1 - x0| + |f(x0)| < 1e-8` holds; and whether
/// the discriminant `d = sqrt(w^2 - 4 * f(x2) * f[x2, x1, x0])` is a real
/// number — a negative radicand means the quadratic model predicts a
/// non-real next estimate.
#[derive(Clone, Copy, Debug, PartialEq)]
pub struct MullerObservation<X> {
    pub next: X,
    pub converged: bool,
    pub discriminant_real: bool,
}

/// The transition one Muller step takes from `triple` with counter `i`
/// under observation `o`.  Convergence is tested first and accepts the
/// triple's most recent estimate; then the cap; a non-real discriminant is
/// the method's `ComplexRoot` failure; otherwise the triple advances.
pub open spec fn muller_step_spec<X>(triple: (X, X, X), i: i8, o: MullerObservation<X>) -> Transition<
    (X, X, X),
    X,
> {
    if o.converged {
        Transition::Converged(triple.2, i)
    } else if !step_permitted(i) {
        Transition::Failed(SolverError::NonConvergence(i))
    } else if !o.discriminant_real {
        Transition::Failed(SolverError::ComplexRoot)
    } else {
        Transition::Advance((triple.1, triple.2, o.next), (i + 1) as i8)
    }
}

/// Take one Muller step.
pub fn muller_step<X: Copy>(triple: (X, X, X), i: i8, o: MullerObservation<X>) -> (t: Transition<
    (X, X, X),
    X,
>)
    ensures
        t == muller_step_spec(triple, i, o),
{
    if o.converged {
        Transition::Converged(triple.2, i)
    } else if !may_step(i) {
        Transition::Failed(SolverError::NonConvergence(i))
    } else if !o.discriminant_real {
        Transition::Failed(SolverError::ComplexRoot)
    } else {
        Transition::Advance((triple.1, triple.2, o.next), i + 1)
    }
}

/// `r` is a possible outcome of running Muller's method from `triple` with
/// counter `i`: some observation `observe` can report of `triple` drives
/// one step, and `r` is that step's terminal answer or a possible outcome
/// of running on from the advanced triple.
pub open spec fn is_muller_run<X, F: Fn((X, X, X)) -> MullerObservation<X>>(
    observe: F,
    triple: (X, X, X),
    i: i8,
    r: Result<(X, i8), SolverError>,
) -> bool
    decreases ITERATION_CAP - i, 1int,
{
    exists|o: MullerObservation<X>|
        #[trigger] call_ensures(observe, (triple,), o) && muller_run_goes_on(
            observe,
            triple,
            i,
            o,
            r,
        )
}

/// After observation `o` of `triple` at counter `i`, `r` is the step's
/// terminal answer, or a possible outcome of running on from the advanced
/// triple.
pub open spec fn muller_run_goes_on<X, F: Fn((X, X, X)) -> MullerObservation<X>>(
    observe: F,
    triple: (X, X, X),
    i: i8,
    o: MullerObservation<X>,
    r: Result<(X, i8), SolverError>,
) -> bool
    decreases ITERATION_CAP - i, 0int,
{
    match muller_step_spec(triple, i, o) {
        Transition::Converged(root, n) => r == Ok::<(X, i8), SolverError>((root, n)),
        Transition::Failed(e) => r == Err::<(X, i8), SolverError>(e),
        Transition::Advance(next, j) => is_muller_run(observe, next, j, r),
    }
}

/// Run Muller's method from the seed triple `triple` with the counter
/// starting at `start`, asking `observe` for one round of measurements per
/// step.
///
/// The result is a run of the step relation over observations `observe`
/// can produce.  In particular, whatever the observations are: a reported
/// non-convergence count is
/// exactly the iteration cap; the only failures are `ComplexRoot` and
/// `NonConvergence` — a non-real next estimate is never passed off as a
/// success; and success carries a count no smaller than `start` and came
/// from an observation that reported convergence.
pub fn muller<X: Copy, F: Fn((X, X, X)) -> MullerObservation<X>>(
    observe: F,
    triple: (X, X, X),
    start: i8,
) -> (r: Result<(X, i8), SolverError>)
    requires
        forall|s: ((X, X, X),)| call_requires(observe, s),
    ensures
        is_muller_run(observe, triple, start, r),
        r matches Err(e) ==> (e == SolverError::ComplexRoot || e matches SolverError::NonConvergence(_)),
        r matches Err(SolverError::NonConvergence(n)) ==> n == ITERATION_CAP,
        r matches Ok(p) ==> start <= p.1,
        r matches Ok(p) ==> exists|s: ((X, X, X),), o: MullerObservation<X>|
            call_ensures(observe, s, o) && o.converged,
{
    let mut current: (X, X, X) = triple;
    let mut i: i8 = start;
    loop
        invariant
            forall|s: ((X, X, X),)| call_requires(observe, s),
            start <= i,
            forall|r2: Result<(X, i8), SolverError>|
                #[trigger] is_muller_run(observe, current, i, r2) ==> is_muller_run(
                    observe,
                    triple,
                    start,
                    r2,
                ),
        decreases ITERATION_CAP - i,
    {
        let o = observe(current);
        match muller_step(current, i, o) {
            Transition::Converged(x, n) => {
                proof {
                    assert(is_muller_run(observe, current, i, Ok::<(X, i8), SolverError>((x, n))));
                }
                return Ok((x, n));
            },
            Transition::Failed(e) => {
                proof {
                    assert(is_muller_run(observe, current, i, Err::<(X, i8), SolverError>(e)));
                }
                return Err(e);
            },
            Transition::Advance(next, j) => {
                proof {
                    assert forall|r2: Result<(X, i8), SolverError>|
                        #[trigger] is_muller_run(observe, next, j, r2) implies is_muller_run(
                        observe,
                        triple,
                        start,
                        r2,
                    ) by {
                        assert(is_muller_run(observe, current, i, r2));
                    }
                }
                current = next;
                i = j;
            },
        }
    }
}

/// Determinism of the step: equal triples, counters and observations give
/// equal transitions — nothing carries over between calls.
pub proof fn lemma_muller_deterministic<X>(
    t1: (X, X, X),
    i1: i8,
    o1: MullerObservation<X>,
    t2: (X, X, X),
    i2: i8,
    o2: MullerObservation<X>,
)
    requires
        t1 == t2,
        i1 == i2,
        o1 == o2,
    ensures
        muller_step_spec(t1, i1, o1) == muller_step_spec(t2, i2, o2),
{
}

/// Idempotence at the solver level: under an observer that reports exactly
/// one observation per triple — as any pure arithmetic does — a run from
/// given seeds has exactly one outcome, so two calls of `muller` with
/// identical inputs return identical results.
pub proof fn lemma_muller_run_unique<X, F: Fn((X, X, X)) -> MullerObservation<X>>(
    observe: F,
    triple: (X, X, X),
    i: i8,
    r1: Result<(X, i8), SolverError>,
    r2: Result<(X, i8), SolverError>,
)
    requires
        forall|s: ((X, X, X),), oa: MullerObservation<X>, ob: MullerObservation<X>|
            call_ensures(observe, s, oa) && call_ensures(observe, s, ob) ==> oa == ob,
        is_muller_run(observe, triple, i, r1),
        is_muller_run(observe, triple, i, r2),
    ensures
        r1 == r2,
    decreases ITERATION_CAP - i,
{
    let o1 = choose|o: MullerObservation<X>|
        #[trigger] call_ensures(observe, (triple,), o) && muller_run_goes_on(
            observe,
            triple,
            i,
            o,
            r1,
        );
    let o2 = choose|o: MullerObservation<X>|
        #[trigger] call_ensures(observe, (triple,), o) && muller_run_goes_on(
            observe,
            triple,
            i,
            o,
            r2,
        );
    assert(o1 == o2);
    match muller_step_spec(triple, i, o1) {
        Transition::Advance(next, j) => {
            lemma_muller_run_unique(observe, next, j, r1, r2);
        },
        _ => {
        },
    }
}

/// The governor's law at each step: the counter never advances past the
/// cap, and a non-convergence failure reports exactly the cap.
pub proof fn lemma_muller_governed<X>(triple: (X, X, X), i: i8, o: MullerObservation<X>)
    ensures
        advances_within_cap(muller_step_spec(triple, i, o)),
        nonconvergence_exactly_at_cap(muller_step_spec(triple, i, o)),
{
}

/// Success is only ever declared on a converged observation, returns the
/// triple's most recent estimate, and consumes no iteration.
pub proof fn lemma_muller_success_is_converged<X>(triple: (X, X, X), i: i8, o: MullerObservation<X>)
    ensures
        muller_step_spec(triple, i, o) matches Transition::Converged(r, n) ==> (o.converged && r
            == triple.2 && n == i),
{
}

/// A non-real discriminant is reported as `ComplexRoot` — but only when
/// neither convergence nor the cap ended the call first.
pub proof fn lemma_muller_rejects_complex_root<X>(triple: (X, X, X), i: i8, o: MullerObservation<X>)
    requires
        !o.converged,
        step_permitted(i),
        !o.discriminant_real,
    ensures
        muller_step_spec(triple, i, o) == Transition::<(X, X, X), X>::Failed(
            SolverError::ComplexRoot,
        ),
{
}

} // verus!
