// Scenario and behaviour tests for the six solvers, driving the verified
// decision cores with floating-point observations.

use std::cell::Cell;

use approx::bisection::{bisection, BisectionObservation};
use approx::falsepos::{falsepos, FalsePositionObservation};
use approx::governor::ITERATION_CAP;
use approx::invquad::{invquad, InverseQuadraticObservation};
use approx::muller::{muller, MullerObservation};
use approx::newton::{newton, NewtonObservation};
use approx::outcome::SolverError;
use approx::secant::{secant, SecantObservation};
use approx::divdiff::divided_difference;

fn done(xn: f64, xl: f64, fx: f64) -> bool {
    (xn - xl).abs() + fx.abs() < 1e-8
}

fn cubic(x: f64) -> f64 {
    x.powf(3.0) - 4.0 * x.powf(2.0) + 3.0 * x + 1.0
}

fn cubic_deriv(x: f64) -> f64 {
    3.0 * x.powf(2.0) - 8.0 * x + 3.0
}

fn exp_cos(x: f64) -> f64 {
    std::f64::consts::E.powf(x) * (1.0 - 2.0 * x.cos())
}

fn divdiff<F: Fn(f64) -> f64 + Copy>(f: F, points: &[f64]) -> f64 {
    divided_difference(
        move |x: f64| f(x),
        |a: f64, b: f64| a - b,
        |a: f64, b: f64| a / b,
        points,
    )
}

fn run_bisection<F: Fn(f64) -> f64 + Copy>(
    f: F,
    bracket: (f64, f64),
    start: i8,
) -> Result<(f64, i8), SolverError> {
    bisection(
        move |b: (f64, f64)| {
            let (lo, hi) = b;
            let c = (hi - lo) / 2.0 + lo;
            let flo = f(lo);
            let fhi = f(hi);
            let fc = f(c);
            BisectionObservation {
                midpoint: c,
                endpoints_same_sign: flo * fhi >= 0.0,
                converged: done(lo, c, fc.abs()),
                low_positive: flo > 0.0,
                midpoint_positive: fc > 0.0,
            }
        },
        bracket,
        start,
    )
}

fn run_newton<F: Fn(f64) -> f64 + Copy, G: Fn(f64) -> f64 + Copy>(
    f: F,
    deriv: G,
    seed: f64,
    start: i8,
) -> Result<(f64, i8), SolverError> {
    newton(
        move |x: f64| {
            let fx = f(x);
            let dfx = deriv(x);
            let next = x - fx / dfx;
            NewtonObservation {
                next,
                converged: done(next, x, fx),
                derivative_usable: dfx.abs() > 1e-6,
            }
        },
        seed,
        start,
    )
}

fn run_secant<F: Fn(f64) -> f64 + Copy>(
    f: F,
    pair: (f64, f64),
    start: i8,
) -> Result<(f64, i8), SolverError> {
    secant(
        move |p: (f64, f64)| {
            let (x0, x1) = p;
            let fx0 = f(x0);
            let fx1 = f(x1);
            let next = x1 - fx1 * ((x1 - x0) / (fx1 - fx0));
            SecantObservation {
                next,
                converged: done(x1, x0, fx1),
                slope_usable: (fx1 - fx0).abs() > 1e-8,
            }
        },
        pair,
        start,
    )
}

fn run_muller<F: Fn(f64) -> f64 + Copy>(
    f: F,
    triple: (f64, f64, f64),
    start: i8,
) -> Result<(f64, i8), SolverError> {
    muller(
        move |t: (f64, f64, f64)| {
            let (x0, x1, x2) = t;
            let w = divdiff(f, &[x2, x1]) + divdiff(f, &[x2, x0]) - divdiff(f, &[x1, x0]);
            let d = (w.powf(2.0) - 4.0 * f(x2) * divdiff(f, &[x2, x1, x0])).sqrt();
            let denominator = if (w - d).abs() > (w + d).abs() { w - d } else { w + d };
            let next = x2 + ((-2.0 * f(x2)) / denominator);
            MullerObservation {
                next,
                converged: done(x1, x0, f(x0)),
                discriminant_real: !d.is_nan(),
            }
        },
        triple,
        start,
    )
}

fn run_invquad<F: Fn(f64) -> f64 + Copy>(
    f: F,
    triple: (f64, f64, f64),
    start: i8,
) -> Result<(f64, i8), SolverError> {
    invquad(
        move |t: (f64, f64, f64)| {
            let (x0, x1, x2) = t;
            let fx0 = f(x0);
            let fx1 = f(x1);
            let fx2 = f(x2);
            let a = (x2 - x1) / (fx2 - fx1);
            let b = (1.0 / (fx2 - fx0)) * (((x2 - x1) / (fx2 - fx1)) - ((x1 - x0) / (fx1 - fx0)));
            let next = x2 - a * fx2 + b * fx2 * fx1;
            InverseQuadraticObservation {
                next,
                converged: done(x2, x1, fx1),
                next_real: !next.is_nan(),
            }
        },
        triple,
        start,
    )
}

fn run_falsepos<F: Fn(f64) -> f64 + Copy>(
    f: F,
    bracket: (f64, f64),
    start: i8,
) -> Result<(f64, i8), SolverError> {
    falsepos(
        move |b: (f64, f64)| {
            let (lo, hi) = b;
            let flo = f(lo);
            let fhi = f(hi);
            let c = (lo * fhi - hi * flo) / (fhi - flo);
            let fc = f(c);
            FalsePositionObservation {
                crossing: c,
                endpoints_same_sign: flo * fhi >= 0.0,
                converged: done(lo, c, fc.abs()),
                low_positive: flo > 0.0,
                crossing_positive: fc > 0.0,
            }
        },
        bracket,
        start,
    )
}

#[test]
fn bisection_converges_on_cubic() {
    let r = run_bisection(cubic, (-1.0, 0.0), 0);
    match r {
        Ok((root, iterations)) => {
            assert!(cubic(root).abs() < 1e-8, "residual too large at {}", root);
            assert!(root > -0.3 && root < -0.2, "root {} out of range", root);
            assert!(iterations < 60, "took {} iterations", iterations);
        }
        Err(e) => panic!("expected convergence, got {:?}", e),
    }
}

#[test]
fn bisection_converges_with_reversed_bracket() {
    // The endpoints arrive in descending order and f is positive at the
    // first one, so the opposite sign-selection arm does the halving.
    let r = run_bisection(cubic, (0.0, -1.0), 0);
    match r {
        Ok((root, _)) => {
            assert!(cubic(root).abs() < 1e-8, "residual too large at {}", root);
            assert!(root > -0.3 && root < -0.2, "root {} out of range", root);
        }
        Err(e) => panic!("expected convergence, got {:?}", e),
    }
}

#[test]
fn bisection_counts_iterations_from_late_start() {
    let r = run_bisection(exp_cos, (-1.25, -0.75), 90);
    match r {
        Ok((root, iterations)) => {
            assert!((root - (-1.0471975511965976)).abs() < 1e-6, "root {} out of range", root);
            assert!(iterations >= 90, "count {} below the start", iterations);
            assert!(iterations <= 127, "count {} beyond the cap", iterations);
        }
        Err(e) => panic!("expected convergence, got {:?}", e),
    }
}

#[test]
fn newton_matches_bisection_root() {
    let b = run_bisection(cubic, (-1.0, 0.0), 0).expect("bisection should converge");
    let n = run_newton(cubic, cubic_deriv, -1.0, 0).expect("newton should converge");
    assert!((n.0 - b.0).abs() < 1e-8, "roots differ: {} vs {}", n.0, b.0);
    assert!(cubic(n.0).abs() < 1e-8, "residual too large at {}", n.0);
}

#[test]
fn secant_converges_on_exponential_cosine() {
    let r = run_secant(exp_cos, (-1.25, -0.75), 0).expect("secant should converge");
    assert!((r.0 - (-1.0471975)).abs() < 1e-6, "root {} out of range", r.0);
    assert!(exp_cos(r.0).abs() < 1e-6, "residual too large at {}", r.0);
}

#[test]
fn muller_reports_complex_root_on_rootless_quadratic() {
    // x^2 + 1 has no real root; from these seeds the quadratic model's
    // radicand is negative on the first step, so the method must stop
    // with ComplexRoot rather than iterate on a NaN.
    let r = run_muller(|x: f64| x * x + 1.0, (-1.0, 0.0, 1.0), 0);
    assert_eq!(r, Err(SolverError::ComplexRoot));
}

#[test]
fn muller_converges_on_cubic_lower_root() {
    let r = run_muller(cubic, (-1.0, -0.5, 0.0), 0);
    match r {
        Ok((root, _)) => {
            assert!(cubic(root).abs() < 1e-6, "residual too large at {}", root);
            assert!(root > -0.3 && root < -0.2, "root {} out of range", root);
        }
        Err(e) => panic!("expected convergence, got {:?}", e),
    }
}

#[test]
fn muller_converges_on_cubic_middle_root() {
    // From these seeds the quadratic model steps over the upper root and
    // settles on the cubic's middle root instead.
    let r = run_muller(cubic, (3.0, 2.5, 2.0), 0);
    match r {
        Ok((root, _)) => {
            assert!(cubic(root).abs() < 1e-6, "residual too large at {}", root);
            assert!(root > 1.4 && root < 1.5, "root {} out of range", root);
        }
        Err(e) => panic!("expected convergence, got {:?}", e),
    }
}

#[test]
fn invquad_converges_on_cubic_upper_root() {
    let r = run_invquad(cubic, (3.0, 2.5, 2.0), 0);
    match r {
        Ok((root, _)) => {
            assert!(cubic(root).abs() < 1e-6, "residual too large at {}", root);
            assert!(root > 2.7 && root < 2.9, "root {} out of range", root);
        }
        Err(e) => panic!("expected convergence, got {:?}", e),
    }
}

#[test]
fn falsepos_converges_on_cubic_upper_root() {
    let r = run_falsepos(cubic, (2.0, 3.0), 0);
    match r {
        Ok((root, _)) => {
            assert!(cubic(root).abs() < 1e-8, "residual too large at {}", root);
            assert!(root > 2.7 && root < 2.9, "root {} out of range", root);
        }
        Err(e) => panic!("expected convergence, got {:?}", e),
    }
}

#[test]
fn falsepos_reverifies_bracket_at_exact_zero_endpoint() {
    // On this bracket the stationary endpoint stays at -1 while the moving
    // endpoint lands so close to the root that its function value rounds
    // to exactly zero; the opposite-sign precondition is re-verified at
    // entry of every retained sub-bracket, so the product test
    // f(lo) * f(hi) >= 0 then fails the bracket rather than divide on.
    let r = run_falsepos(cubic, (-1.0, 0.0), 0);
    assert_eq!(r, Err(SolverError::BracketInvalid));
}

#[test]
fn secant_converges_on_cubic() {
    let r = run_secant(cubic, (-1.0, 0.0), 0).expect("secant should converge");
    assert!(cubic(r.0).abs() < 1e-6, "residual too large at {}", r.0);
    assert!(r.0 > -0.3 && r.0 < -0.2, "root {} out of range", r.0);
}

#[test]
fn bisection_rejects_same_sign_bracket_after_three_evaluations() {
    let evaluations: Cell<u32> = Cell::new(0);
    let counted = |x: f64| {
        evaluations.set(evaluations.get() + 1);
        x * x + 1.0
    };
    let r = run_bisection(&counted, (1.0, 2.0), 0);
    assert_eq!(r, Err(SolverError::BracketInvalid));
    assert!(evaluations.get() <= 3, "made {} evaluations", evaluations.get());
}

#[test]
fn falsepos_rejects_same_sign_bracket_after_three_evaluations() {
    let evaluations: Cell<u32> = Cell::new(0);
    let counted = |x: f64| {
        evaluations.set(evaluations.get() + 1);
        x * x + 1.0
    };
    let r = run_falsepos(&counted, (1.0, 2.0), 0);
    assert_eq!(r, Err(SolverError::BracketInvalid));
    assert!(evaluations.get() <= 3, "made {} evaluations", evaluations.get());
}

#[test]
fn solvers_are_idempotent_across_calls() {
    let first = run_bisection(cubic, (-1.0, 0.0), 0);
    let second = run_bisection(cubic, (-1.0, 0.0), 0);
    assert_eq!(first, second);

    let first = run_muller(cubic, (-1.0, -0.5, 0.0), 0);
    let second = run_muller(cubic, (-1.0, -0.5, 0.0), 0);
    assert_eq!(first, second);

    let first = run_newton(cubic, cubic_deriv, -1.0, 0);
    let second = run_newton(cubic, cubic_deriv, -1.0, 0);
    assert_eq!(first, second);
}

#[test]
fn newton_hits_cap_exactly_on_divergent_iteration() {
    let r = newton(
        |x: f64| NewtonObservation { next: x + 1.0, converged: false, derivative_usable: true },
        0.0,
        0,
    );
    assert_eq!(r, Err(SolverError::NonConvergence(ITERATION_CAP)));
}

#[test]
fn newton_hits_cap_exactly_from_late_start() {
    let r = newton(
        |x: f64| NewtonObservation { next: x + 1.0, converged: false, derivative_usable: true },
        0.0,
        100,
    );
    assert_eq!(r, Err(SolverError::NonConvergence(ITERATION_CAP)));
}

#[test]
fn bisection_hits_cap_exactly_on_pole() {
    let pole = |x: f64| 1.0 / (x - 0.1);
    let r = run_bisection(pole, (0.0, 1.0), 0);
    assert_eq!(r, Err(SolverError::NonConvergence(ITERATION_CAP)));
}

#[test]
fn newton_reports_derivative_too_small() {
    let r = run_newton(|_x: f64| 2.0, |_x: f64| 0.0, 1.0, 0);
    assert_eq!(r, Err(SolverError::DerivativeTooSmall));
}

#[test]
fn secant_reports_degenerate_slope() {
    let r = run_secant(|_x: f64| 5.0, (0.0, 1.0), 0);
    assert_eq!(r, Err(SolverError::SecantDegenerate));
}

#[test]
fn invquad_reports_complex_next_estimate() {
    let r = invquad(
        |_t: (f64, f64, f64)| InverseQuadraticObservation {
            next: f64::NAN,
            converged: false,
            next_real: false,
        },
        (0.0, 0.5, 1.0),
        0,
    );
    assert_eq!(r, Err(SolverError::ComplexRoot));
}

#[test]
fn invquad_checks_cap_before_convergence_unlike_muller() {
    // The one method that consults the governor before the convergence
    // predicate: at the cap it reports non-convergence even when the
    // observation says converged, where Muller still accepts.
    let r = invquad(
        |t: (f64, f64, f64)| InverseQuadraticObservation {
            next: t.2,
            converged: true,
            next_real: true,
        },
        (0.0, 0.5, 1.0),
        ITERATION_CAP,
    );
    assert_eq!(r, Err(SolverError::NonConvergence(ITERATION_CAP)));

    let r = muller(
        |t: (f64, f64, f64)| MullerObservation {
            next: t.2,
            converged: true,
            discriminant_real: true,
        },
        (0.0, 0.5, 1.0),
        ITERATION_CAP,
    );
    assert_eq!(r, Ok((1.0, ITERATION_CAP)));
}
