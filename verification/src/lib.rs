//! Iterative root-finding for single-variable real functions.
//!
//! Six refinement schemes are provided: bisection, Newton's method, the
//! secant method, Muller's method, inverse quadratic iteration and the
//! false-position method.  Each scheme is a small state machine: one
//! refinement step consumes the current iteration state together with an
//! observation of the scalar function (midpoint, convergence flag, sign
//! tests and so on) and produces exactly one transition — success, a typed
//! failure, or a new state with the counter advanced.
//!
//! The scalar arithmetic itself is the caller's: solvers are generic in the
//! scalar type and never inspect a scalar value, so every decision a solver
//! takes is stated and proved here over the observations alone.

pub mod bisection;
pub mod divdiff;
pub mod falsepos;
pub mod governor;
pub mod invquad;
pub mod muller;
pub mod newton;
pub mod outcome;
pub mod secant;
