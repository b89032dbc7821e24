//! Newton-form divided differences over an ordered list of sample points,
//! computed recursively: one point yields `f(x0)`; two points yield
//! `(f(x1) - f(x0)) / (x1 - x0)`; `n` points yield the divided difference
//! of the last `n - 1` points minus that of the first `n - 1` points,
//! divided by `x_last - x_first`.  Muller's method builds its quadratic
//! model from these.
//!
//! The scalar arithmetic is the caller's, handed in as three closures:
//! `eval` for the function itself, `minus` for subtraction and `ratio` for
//! division.  The contract relates the result to the closures' own
//! input-output behaviour, so for deterministic arithmetic the recursive
//! formula is pinned down exactly.

use vstd::prelude::*;

verus! {

/// `value` is a possible result of the Newton-form divided-difference
/// recursion over `points`, where each intermediate quantity is a possible
/// output of the corresponding arithmetic closure: a single point is
/// evaluated; longer lists difference the two sub-lists and divide by the
/// spread of the endpoints.
pub open spec fn is_divided_difference<X, E: Fn(X) -> X, S: Fn(X, X) -> X, D: Fn(X, X) -> X>(
    eval: E,
    minus: S,
    ratio: D,
    points: Seq<X>,
    value: X,
) -> bool
    decreases points.len(),
{
    if points.len() <= 1 {
        call_ensures(eval, (points[0],), value)
    } else {
        exists|right: X, left: X, num: X, den: X|
            {
                &&& is_divided_difference(eval, minus, ratio, points.drop_first(), right)
                &&& is_divided_difference(eval, minus, ratio, points.drop_last(), left)
                &&& #[trigger] call_ensures(minus, (right, left), num)
                &&& call_ensures(minus, (points.last(), points.first()), den)
                &&& #[trigger] call_ensures(ratio, (num, den), value)
            }
    }
}

/// For functional arithmetic — closures whose output is determined by
/// their input, as any pure arithmetic is — the divided difference is a
/// function of the points: two outcomes over the same list are equal.
pub proof fn lemma_divided_difference_unique<X, E: Fn(X) -> X, S: Fn(X, X) -> X, D: Fn(X, X) -> X>(
    eval: E,
    minus: S,
    ratio: D,
    points: Seq<X>,
    v1: X,
    v2: X,
)
    requires
        forall|a: (X,), ya: X, yb: X|
            call_ensures(eval, a, ya) && call_ensures(eval, a, yb) ==> ya == yb,
        forall|a: (X, X), ya: X, yb: X|
            call_ensures(minus, a, ya) && call_ensures(minus, a, yb) ==> ya == yb,
        forall|a: (X, X), ya: X, yb: X|
            call_ensures(ratio, a, ya) && call_ensures(ratio, a, yb) ==> ya == yb,
        points.len() >= 1,
        is_divided_difference(eval, minus, ratio, points, v1),
        is_divided_difference(eval, minus, ratio, points, v2),
    ensures
        v1 == v2,
    decreases points.len(),
{
    if points.len() > 1 {
        let (right1, left1, num1, den1) = choose|right: X, left: X, num: X, den: X|
            {
                &&& is_divided_difference(eval, minus, ratio, points.drop_first(), right)
                &&& is_divided_difference(eval, minus, ratio, points.drop_last(), left)
                &&& #[trigger] call_ensures(minus, (right, left), num)
                &&& call_ensures(minus, (points.last(), points.first()), den)
                &&& #[trigger] call_ensures(ratio, (num, den), v1)
            };
        let (right2, left2, num2, den2) = choose|right: X, left: X, num: X, den: X|
            {
                &&& is_divided_difference(eval, minus, ratio, points.drop_first(), right)
                &&& is_divided_difference(eval, minus, ratio, points.drop_last(), left)
                &&& #[trigger] call_ensures(minus, (right, left), num)
                &&& call_ensures(minus, (points.last(), points.first()), den)
                &&& #[trigger] call_ensures(ratio, (num, den), v2)
            };
        lemma_divided_difference_unique(
            eval,
            minus,
            ratio,
            points.drop_first(),
            right1,
            right2,
        );
        lemma_divided_difference_unique(eval, minus, ratio, points.drop_last(), left1, left2);
    }
}

/// The two-point law: for functional arithmetic, the divided difference
/// over `[x0, x1]` is exactly the difference quotient
/// `ratio(minus(eval(x1), eval(x0)), minus(x1, x0))` — an identity of the
/// arithmetic handed in, not an approximation.
pub proof fn lemma_two_point_divided_difference<
    X,
    E: Fn(X) -> X,
    S: Fn(X, X) -> X,
    D: Fn(X, X) -> X,
>(
    eval: E,
    minus: S,
    ratio: D,
    points: Seq<X>,
    v: X,
    f0: X,
    f1: X,
    num: X,
    den: X,
    quotient: X,
)
    requires
        forall|a: (X,), ya: X, yb: X|
            call_ensures(eval, a, ya) && call_ensures(eval, a, yb) ==> ya == yb,
        forall|a: (X, X), ya: X, yb: X|
            call_ensures(minus, a, ya) && call_ensures(minus, a, yb) ==> ya == yb,
        forall|a: (X, X), ya: X, yb: X|
            call_ensures(ratio, a, ya) && call_ensures(ratio, a, yb) ==> ya == yb,
        points.len() == 2,
        is_divided_difference(eval, minus, ratio, points, v),
        call_ensures(eval, (points[0],), f0),
        call_ensures(eval, (points[1],), f1),
        call_ensures(minus, (f1, f0), num),
        call_ensures(minus, (points[1], points[0]), den),
        call_ensures(ratio, (num, den), quotient),
    ensures
        v == quotient,
{
    let (right, left, num0, den0) = choose|right: X, left: X, num0: X, den0: X|
        {
            &&& is_divided_difference(eval, minus, ratio, points.drop_first(), right)
            &&& is_divided_difference(eval, minus, ratio, points.drop_last(), left)
            &&& #[trigger] call_ensures(minus, (right, left), num0)
            &&& call_ensures(minus, (points.last(), points.first()), den0)
            &&& #[trigger] call_ensures(ratio, (num0, den0), v)
        };
    assert(points.drop_first()[0] == points[1]);
    assert(points.drop_last()[0] == points[0]);
    assert(right == f1);
    assert(left == f0);
}

/// Compute the divided difference of the sampled function over `points`,
/// in the Newton-form recursion's evaluation order: for two points
/// `x0, x1` the result is exactly
/// `ratio(minus(eval(x1), eval(x0)), minus(x1, x0))`.
pub fn divided_difference<
    X: Copy,
    E: Fn(X) -> X + Copy,
    S: Fn(X, X) -> X + Copy,
    D: Fn(X, X) -> X + Copy,
>(eval: E, minus: S, ratio: D, points: &[X]) -> (value: X)
    requires
        points@.len() >= 1,
        forall|a: (X,)| call_requires(eval, a),
        forall|a: (X, X)| call_requires(minus, a),
        forall|a: (X, X)| call_requires(ratio, a),
    ensures
        is_divided_difference(eval, minus, ratio, points@, value),
        points@.len() == 1 ==> call_ensures(eval, (points@[0],), value),
    decreases points@.len(),
{
    let n: usize = points.len();
    if n == 1 {
        eval(points[0])
    } else {
        let right: X = divided_difference(eval, minus, ratio, &points[1..n]);
        let left: X = divided_difference(eval, minus, ratio, &points[0..n - 1]);
        let num: X = minus(right, left);
        let den: X = minus(points[n - 1], points[0]);
        let value: X = ratio(num, den);
        proof {
            assert(points@.subrange(1, points@.len() as int) =~= points@.drop_first());
            assert(points@.subrange(0, points@.len() as int - 1) =~= points@.drop_last());
            assert(is_divided_difference(eval, minus, ratio, points@.drop_first(), right));
            assert(is_divided_difference(eval, minus, ratio, points@.drop_last(), left));
            assert(call_ensures(minus, (points@.last(), points@.first()), den));
        }
        value
    }
}

} // verus!
