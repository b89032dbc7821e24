//! The bisection method: repeated halving of a bracket whose endpoints
//! straddle a sign change.

use vstd::prelude::*;
use crate::governor::{ITERATION_CAP, may_step, step_permitted};
use crate::outcome::{SolverError, Transition, advances_within_cap, nonconvergence_exactly_at_cap};

verus! {

/// What the caller's arithmetic reports about one bisection round over the
/// bracket `(lo, hi)`: the midpoint `c = lo + (hi - lo) / 2`, whether
/// `f(lo) * f(hi) >= 0` (the intermediate value theorem does not apply),
/// whether the convergence predicate `|lo - c| + |f(c)| < 1e-8` holds, and
/// the signs `f(lo) > 0` and `f(c) > 0` used to pick the half-bracket.
#[derive(Clone, Copy, Debug, PartialEq)]
pub struct BisectionObservation<X> {
    pub midpoint: X,
    pub endpoints_same_sign: bool,
    pub converged: bool,
    pub low_positive: bool,
    pub midpoint_positive: bool,
}

/// The transition one bisection step takes from `bracket` with counter `i`
/// under observation `o`.  The invalid-bracket test comes first and consumes
/// no iteration; convergence is tested before the cap, so a step that
/// converges exactly at the cap still succeeds; otherwise the half-bracket
/// whose endpoints straddle the sign change is kept.
pub open spec fn bisection_step_spec<X>(
    bracket: (X, X),
    i: i8,
    o: BisectionObservation<X>,
) -> Transition<(X, X), X> {
    if o.endpoints_same_sign {
        Transition::Failed(SolverError::BracketInvalid)
    } else if o.converged {
        Transition::Converged(o.midpoint, i)
    } else if !step_permitted(i) {
        Transition::Failed(SolverError::NonConvergence(i))
    } else if o.low_positive == o.midpoint_positive {
        Transition::Advance((o.midpoint, bracket.1), (i + 1) as i8)
    } else {
        Transition::Advance((bracket.0, o.midpoint), (i + 1) as i8)
    }
}

/// Take one bisection step.
pub fn bisection_step<X: Copy>(bracket: (X, X), i: i8, o: BisectionObservation<X>) -> (t: Transition<
    (X, X),
    X,
>)
    ensures
        t == bisection_step_spec(bracket, i, o),
{
    if o.endpoints_same_sign {
        Transition::Failed(SolverError::BracketInvalid)
    } else if o.converged {
        Transition::Converged(o.midpoint, i)
    } else if !may_step(i) {
        Transition::Failed(SolverError::NonConvergence(i))
    } else if o.low_positive == o.midpoint_positive {
        Transition::Advance((o.midpoint, bracket.1), i + 1)
    } else {
        Transition::Advance((bracket.0, o.midpoint), i + 1)
    }
}

/// `r` is a possible outcome of running bisection from `bracket` with
/// counter `i`: some observation `observe` can report of `bracket` drives
/// one step, and `r` is that step's terminal answer or a possible outcome
/// of running on from the advanced state.
pub open spec fn is_bisection_run<X, F: Fn((X, X)) -> BisectionObservation<X>>(
    observe: F,
    bracket: (X, X),
    i: i8,
    r: Result<(X, i8), SolverError>,
) -> bool
    decreases ITERATION_CAP - i, 1int,
{
    exists|o: BisectionObservation<X>|
        #[trigger] call_ensures(observe, (bracket,), o) && bisection_run_goes_on(
            observe,
            bracket,
            i,
            o,
            r,
        )
}

/// After observation `o` of `bracket` at counter `i`, `r` is the step's
/// terminal answer, or a possible outcome of running on from the advanced
/// state.
pub open spec fn bisection_run_goes_on<X, F: Fn((X, X)) -> BisectionObservation<X>>(
    observe: F,
    bracket: (X, X),
    i: i8,
    o: BisectionObservation<X>,
    r: Result<(X, i8), SolverError>,
) -> bool
    decreases ITERATION_CAP - i, 0int,
{
    match bisection_step_spec(bracket, i, o) {
        Transition::Converged(x, n) => r == Ok::<(X, i8), SolverError>((x, n)),
        Transition::Failed(e) => r == Err::<(X, i8), SolverError>(e),
        Transition::Advance(next, j) => is_bisection_run(observe, next, j, r),
    }
}

/// Run the bisection method from `bracket` with the counter starting at
/// `start`, asking `observe` for one round of measurements per step.
///
/// The result is a run of the step relation over observations `observe`
/// can produce.  In particular, whatever the observations are: a reported
/// non-convergence count is
/// exactly the iteration cap; the only failures are `BracketInvalid` and
/// `NonConvergence`; success returns a midpoint from an observation that
/// reported convergence, with a count no smaller than `start`; and if every
/// observation reports same-sign endpoints the call returns
/// `BracketInvalid`.
pub fn bisection<X: Copy, F: Fn((X, X)) -> BisectionObservation<X>>(
    observe: F,
    bracket: (X, X),
    start: i8,
) -> (r: Result<(X, i8), SolverError>)
    requires
        forall|s: ((X, X),)| call_requires(observe, s),
    ensures
        is_bisection_run(observe, bracket, start, r),
        r matches Err(e) ==> (e == SolverError::BracketInvalid || e matches SolverError::NonConvergence(_)),
        r matches Err(SolverError::NonConvergence(n)) ==> n == ITERATION_CAP,
        r matches Ok(p) ==> start <= p.1,
        r matches Ok(p) ==> exists|s: ((X, X),), o: BisectionObservation<X>|
            call_ensures(observe, s, o) && o.converged && p.0 == o.midpoint,
        (forall|s: ((X, X),), o: BisectionObservation<X>|
            call_ensures(observe, s, o) ==> o.endpoints_same_sign) ==> r == Err::<(X, i8), SolverError>(SolverError::BracketInvalid),
{
    let mut current: (X, X) = bracket;
    let mut i: i8 = start;
    loop
        invariant
            forall|s: ((X, X),)| call_requires(observe, s),
            start <= i,
            forall|r2: Result<(X, i8), SolverError>|
                #[trigger] is_bisection_run(observe, current, i, r2) ==> is_bisection_run(
                    observe,
                    bracket,
                    start,
                    r2,
                ),
        decreases ITERATION_CAP - i,
    {
        let o = observe(current);
        match bisection_step(current, i, o) {
            Transition::Converged(x, n) => {
                proof {
                    assert(is_bisection_run(observe, current, i, Ok::<(X, i8), SolverError>((x, n))));
                }
                return Ok((x, n));
            },
            Transition::Failed(e) => {
                proof {
                    assert(is_bisection_run(observe, current, i, Err::<(X, i8), SolverError>(e)));
                }
                return Err(e);
            },
            Transition::Advance(next, j) => {
                proof {
                    assert forall|r2: Result<(X, i8), SolverError>|
                        #[trigger] is_bisection_run(observe, next, j, r2) implies is_bisection_run(
                        observe,
                        bracket,
                        start,
                        r2,
                    ) by {
                        assert(is_bisection_run(observe, current, i, r2));
                    }
                }
                current = next;
                i = j;
            },
        }
    }
}

/// Determinism of the step: equal brackets, counters and observations give
/// equal transitions — nothing carries over between calls.
pub proof fn lemma_bisection_deterministic<X>(
    b1: (X, X),
    i1: i8,
    o1: BisectionObservation<X>,
    b2: (X, X),
    i2: i8,
    o2: BisectionObservation<X>,
)
    requires
        b1 == b2,
        i1 == i2,
        o1 == o2,
    ensures
        bisection_step_spec(b1, i1, o1) == bisection_step_spec(b2, i2, o2),
{
}

/// Idempotence at the solver level: under an observer that reports exactly
/// one observation per state — as any pure arithmetic does — a run from
/// given seeds has exactly one outcome, so two calls of `bisection` with
/// identical inputs return identical results.
pub proof fn lemma_bisection_run_unique<X, F: Fn((X, X)) -> BisectionObservation<X>>(
    observe: F,
    bracket: (X, X),
    i: i8,
    r1: Result<(X, i8), SolverError>,
    r2: Result<(X, i8), SolverError>,
)
    requires
        forall|s: ((X, X),), oa: BisectionObservation<X>, ob: BisectionObservation<X>|
            call_ensures(observe, s, oa) && call_ensures(observe, s, ob) ==> oa == ob,
        is_bisection_run(observe, bracket, i, r1),
        is_bisection_run(observe, bracket, i, r2),
    ensures
        r1 == r2,
    decreases ITERATION_CAP - i,
{
    let o1 = choose|o: BisectionObservation<X>|
        #[trigger] call_ensures(observe, (bracket,), o) && bisection_run_goes_on(
            observe,
            bracket,
            i,
            o,
            r1,
        );
    let o2 = choose|o: BisectionObservation<X>|
        #[trigger] call_ensures(observe, (bracket,), o) && bisection_run_goes_on(
            observe,
            bracket,
            i,
            o,
            r2,
        );
    assert(o1 == o2);
    match bisection_step_spec(bracket, i, o1) {
        Transition::Advance(next, j) => {
            lemma_bisection_run_unique(observe, next, j, r1, r2);
        },
        _ => {
        },
    }
}

/// The governor's law at each step: the counter never advances past the
/// cap, and a non-convergence failure reports exactly the cap.
pub proof fn lemma_bisection_governed<X>(bracket: (X, X), i: i8, o: BisectionObservation<X>)
    ensures
        advances_within_cap(bisection_step_spec(bracket, i, o)),
        nonconvergence_exactly_at_cap(bisection_step_spec(bracket, i, o)),
{
}

/// Success is only ever declared on a converged observation of a valid
/// bracket, returns that observation's midpoint, and consumes no iteration.
pub proof fn lemma_bisection_success_is_converged<X>(
    bracket: (X, X),
    i: i8,
    o: BisectionObservation<X>,
)
    ensures
        bisection_step_spec(bracket, i, o) matches Transition::Converged(x, n) ==> (o.converged
            && !o.endpoints_same_sign && x == o.midpoint && n == i),
{
}

/// An invalid bracket — endpoints whose function values do not straddle a
/// sign change — is rejected at once, whatever the counter and the rest of
/// the observation say.
pub proof fn lemma_bisection_rejects_invalid_bracket<X>(
    bracket: (X, X),
    i: i8,
    o: BisectionObservation<X>,
)
    requires
        o.endpoints_same_sign,
    ensures
        bisection_step_spec(bracket, i, o) == Transition::<(X, X), X>::Failed(
            SolverError::BracketInvalid,
        ),
{
}

} // verus!
