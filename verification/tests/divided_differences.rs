// The divided-difference evaluator against the closed forms of its one-,
// two- and three-point cases; the two-point case is an exact
// floating-point identity, not an approximation.

use approx::divdiff::divided_difference;

fn cubic(x: f64) -> f64 {
    x.powf(3.0) - 4.0 * x.powf(2.0) + 3.0 * x + 1.0
}

fn divdiff(points: &[f64]) -> f64 {
    divided_difference(
        |x: f64| cubic(x),
        |a: f64, b: f64| a - b,
        |a: f64, b: f64| a / b,
        points,
    )
}

#[test]
fn one_point_divided_difference_is_the_sample() {
    assert_eq!(divdiff(&[1.5]), cubic(1.5));
    assert_eq!(divdiff(&[-0.25]), cubic(-0.25));
}

#[test]
fn two_point_divided_difference_is_the_difference_quotient() {
    let x0 = -1.0;
    let x1 = -0.5;
    assert_eq!(divdiff(&[x0, x1]), (cubic(x1) - cubic(x0)) / (x1 - x0));

    let x0 = 2.0;
    let x1 = 3.0;
    assert_eq!(divdiff(&[x0, x1]), (cubic(x1) - cubic(x0)) / (x1 - x0));
}

#[test]
fn three_point_divided_difference_is_the_nested_quotient() {
    let x2 = 0.0;
    let x1 = -0.5;
    let x0 = -1.0;
    let lower = (cubic(x1) - cubic(x2)) / (x1 - x2);
    let upper = (cubic(x0) - cubic(x1)) / (x0 - x1);
    assert_eq!(divdiff(&[x2, x1, x0]), (upper - lower) / (x0 - x2));
}
