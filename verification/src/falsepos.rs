//! The false-position (regula falsi) method: bisection's bracketing
//! discipline, but the next point comes from secant-style interpolation
//! between the bracket endpoints instead of the midpoint.

use vstd::prelude::*;
use crate::governor::{ITERATION_CAP, may_step, step_permitted};
use crate::outcome::{SolverError, Transition, advances_within_cap, nonconvergence_exactly_at_cap};

verus! {

/// What the caller's arithmetic reports about one false-position round
/// over the bracket `(lo, hi)`: the interpolated crossing
/// `c = (lo * f(hi) - hi * f(lo)) / (f(hi) - f(lo))`, whether
/// `f(lo) * f(hi) >= 0` (the intermediate value theorem does not apply),
/// whether the convergence predicate `|lo - c| + |f(c)| < 1e-8` holds, and
/// the signs `f(lo) > 0` and `f(c) > 0` used to pick the sub-bracket.
#[derive(Clone, Copy, Debug, PartialEq)]
pub struct FalsePositionObservation<X> {
    pub crossing: X,
    pub endpoints_same_sign: bool,
    pub converged: bool,
    pub low_positive: bool,
    pub crossing_positive: bool,
}

/// The transition one false-position step takes from `bracket` with
/// counter `i` under observation `o`: the same decision order as
/// bisection — the invalid-bracket test comes first and consumes no
/// iteration, convergence is tested before the cap, and the sub-bracket
/// whose endpoints straddle the sign change is kept — with the
/// interpolated crossing in the midpoint's place.
pub open spec fn falsepos_step_spec<X>(
    bracket: (X, X),
    i: i8,
    o: FalsePositionObservation<X>,
) -> Transition<(X, X), X> {
    if o.endpoints_same_sign {
        Transition::Failed(SolverError::BracketInvalid)
    } else if o.converged {
        Transition::Converged(o.crossing, i)
    } else if !step_permitted(i) {
        Transition::Failed(SolverError::NonConvergence(i))
    } else if o.low_positive == o.crossing_positive {
        Transition::Advance((o.crossing, bracket.1), (i + 1) as i8)
    } else {
        Transition::Advance((bracket.0, o.crossing), (i + 1) as i8)
    }
}

/// Take one false-position step.
pub fn falsepos_step<X: Copy>(bracket: (X, X), i: i8, o: FalsePositionObservation<X>) -> (t:
    Transition<(X, X), X>)
    ensures
        t == falsepos_step_spec(bracket, i, o),
{
    if o.endpoints_same_sign {
        Transition::Failed(SolverError::BracketInvalid)
    } else if o.converged {
        Transition::Converged(o.crossing, i)
    } else if !may_step(i) {
        Transition::Failed(SolverError::NonConvergence(i))
    } else if o.low_positive == o.crossing_positive {
        Transition::Advance((o.crossing, bracket.1), i + 1)
    } else {
        Transition::Advance((bracket.0, o.crossing), i + 1)
    }
}

/// `r` is a possible outcome of running false position from `bracket` with
/// counter `i`: some observation `observe` can report of `bracket` drives
/// one step, and `r` is that step's terminal answer or a possible outcome
/// of running on from the advanced bracket.
pub open spec fn is_falsepos_run<X, F: Fn((X, X)) -> FalsePositionObservation<X>>(
    observe: F,
    bracket: (X, X),
    i: i8,
    r: Result<(X, i8), SolverError>,
) -> bool
    decreases ITERATION_CAP - i, 1int,
{
    exists|o: FalsePositionObservation<X>|
        #[trigger] call_ensures(observe, (bracket,), o) && falsepos_run_goes_on(
            observe,
            bracket,
            i,
            o,
            r,
        )
}

/// After observation `o` of `bracket` at counter `i`, `r` is the step's
/// terminal answer, or a possible outcome of running on from the advanced
/// bracket.
pub open spec fn falsepos_run_goes_on<X, F: Fn((X, X)) -> FalsePositionObservation<X>>(
    observe: F,
    bracket: (X, X),
    i: i8,
    o: FalsePositionObservation<X>,
    r: Result<(X, i8), SolverError>,
) -> bool
    decreases ITERATION_CAP - i, 0int,
{
    match falsepos_step_spec(bracket, i, o) {
        Transition::Converged(root, n) => r == Ok::<(X, i8), SolverError>((root, n)),
        Transition::Failed(e) => r == Err::<(X, i8), SolverError>(e),
        Transition::Advance(next, j) => is_falsepos_run(observe, next, j, r),
    }
}

/// Run the false-position method from `bracket` with the counter starting
/// at `start`, asking `observe` for one round of measurements per step.
///
/// The result is a run of the step relation over observations `observe`
/// can produce.  In particular, whatever the observations are: a reported
/// non-convergence count is
/// exactly the iteration cap; the only failures are `BracketInvalid` and
/// `NonConvergence`; success returns a crossing from an observation that
/// reported convergence, with a count no smaller than `start`; and if
/// every observation reports same-sign endpoints the call returns
/// `BracketInvalid`.
pub fn falsepos<X: Copy, F: Fn((X, X)) -> FalsePositionObservation<X>>(
    observe: F,
    bracket: (X, X),
    start: i8,
) -> (r: Result<(X, i8), SolverError>)
    requires
        forall|s: ((X, X),)| call_requires(observe, s),
    ensures
        is_falsepos_run(observe, bracket, start, r),
        r matches Err(e) ==> (e == SolverError::BracketInvalid || e matches SolverError::NonConvergence(_)),
        r matches Err(SolverError::NonConvergence(n)) ==> n == ITERATION_CAP,
        r matches Ok(p) ==> start <= p.1,
        r matches Ok(p) ==> exists|s: ((X, X),), o: FalsePositionObservation<X>|
            call_ensures(observe, s, o) && o.converged && p.0 == o.crossing,
        (forall|s: ((X, X),), o: FalsePositionObservation<X>|
            call_ensures(observe, s, o) ==> o.endpoints_same_sign) ==> r == Err::<(X, i8), SolverError>(SolverError::BracketInvalid),
{
    let mut current: (X, X) = bracket;
    let mut i: i8 = start;
    loop
        invariant
            forall|s: ((X, X),)| call_requires(observe, s),
            start <= i,
            forall|r2: Result<(X, i8), SolverError>|
                #[trigger] is_falsepos_run(observe, current, i, r2) ==> is_falsepos_run(
                    observe,
                    bracket,
                    start,
                    r2,
                ),
        decreases ITERATION_CAP - i,
    {
        let o = observe(current);
        match falsepos_step(current, i, o) {
            Transition::Converged(x, n) => {
                proof {
                    assert(is_falsepos_run(observe, current, i, Ok::<(X, i8), SolverError>((x, n))));
                }
                return Ok((x, n));
            },
            Transition::Failed(e) => {
                proof {
                    assert(is_falsepos_run(observe, current, i, Err::<(X, i8), SolverError>(e)));
                }
                return Err(e);
            },
            Transition::Advance(next, j) => {
                proof {
                    assert forall|r2: Result<(X, i8), SolverError>|
                        #[trigger] is_falsepos_run(observe, next, j, r2) implies is_falsepos_run(
                        observe,
                        bracket,
                        start,
                        r2,
                    ) by {
                        assert(is_falsepos_run(observe, current, i, r2));
                    }
                }
                current = next;
                i = j;
            },
        }
    }
}

/// Determinism of the step: equal brackets, counters and observations give
/// equal transitions — nothing carries over between calls.
pub proof fn lemma_falsepos_deterministic<X>(
    b1: (X, X),
    i1: i8,
    o1: FalsePositionObservation<X>,
    b2: (X, X),
    i2: i8,
    o2: FalsePositionObservation<X>,
)
    requires
        b1 == b2,
        i1 == i2,
        o1 == o2,
    ensures
        falsepos_step_spec(b1, i1, o1) == falsepos_step_spec(b2, i2, o2),
{
}

/// Idempotence at the solver level: under an observer that reports exactly
/// one observation per bracket — as any pure arithmetic does — a run from
/// given seeds has exactly one outcome, so two calls of `falsepos` with
/// identical inputs return identical results.
pub proof fn lemma_falsepos_run_unique<X, F: Fn((X, X)) -> FalsePositionObservation<X>>(
    observe: F,
    bracket: (X, X),
    i: i8,
    r1: Result<(X, i8), SolverError>,
    r2: Result<(X, i8), SolverError>,
)
    requires
        forall|s: ((X, X),), oa: FalsePositionObservation<X>, ob: FalsePositionObservation<X>|
            call_ensures(observe, s, oa) && call_ensures(observe, s, ob) ==> oa == ob,
        is_falsepos_run(observe, bracket, i, r1),
        is_falsepos_run(observe, bracket, i, r2),
    ensures
        r1 == r2,
    decreases ITERATION_CAP - i,
{
    let o1 = choose|o: FalsePositionObservation<X>|
        #[trigger] call_ensures(observe, (bracket,), o) && falsepos_run_goes_on(
            observe,
            bracket,
            i,
            o,
            r1,
        );
    let o2 = choose|o: FalsePositionObservation<X>|
        #[trigger] call_ensures(observe, (bracket,), o) && falsepos_run_goes_on(
            observe,
            bracket,
            i,
            o,
            r2,
        );
    assert(o1 == o2);
    match falsepos_step_spec(bracket, i, o1) {
        Transition::Advance(next, j) => {
            lemma_falsepos_run_unique(observe, next, j, r1, r2);
        },
        _ => {
        },
    }
}

/// The governor's law at each step: the counter never advances past the
/// cap, and a non-convergence failure reports exactly the cap.
pub proof fn lemma_falsepos_governed<X>(bracket: (X, X), i: i8, o: FalsePositionObservation<X>)
    ensures
        advances_within_cap(falsepos_step_spec(bracket, i, o)),
        nonconvergence_exactly_at_cap(falsepos_step_spec(bracket, i, o)),
{
}

/// Success is only ever declared on a converged observation of a valid
/// bracket, returns that observation's crossing, and consumes no
/// iteration.
pub proof fn lemma_falsepos_success_is_converged<X>(
    bracket: (X, X),
    i: i8,
    o: FalsePositionObservation<X>,
)
    ensures
        falsepos_step_spec(bracket, i, o) matches Transition::Converged(x, n) ==> (o.converged
            && !o.endpoints_same_sign && x == o.crossing && n == i),
{
}

/// An invalid bracket — endpoints whose function values do not straddle a
/// sign change — is rejected at once, whatever the counter and the rest of
/// the observation say.
pub proof fn lemma_falsepos_rejects_invalid_bracket<X>(
    bracket: (X, X),
    i: i8,
    o: FalsePositionObservation<X>,
)
    requires
        o.endpoints_same_sign,
    ensures
        falsepos_step_spec(bracket, i, o) == Transition::<(X, X), X>::Failed(
            SolverError::BracketInvalid,
        ),
{
}

} // verus!
