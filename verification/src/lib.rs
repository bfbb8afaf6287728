//! A catalogue of canonical mathematical test functions used to evaluate
//! optimization algorithms, together with the capability contracts
//! (objective arity, boundedness, constraints, dimensionality) that
//! benchmark-harness code relies on.
//!
//! Scalars are exact rationals rather than machine floats, so every
//! evaluation formula, bound check and minimizer in this crate carries a
//! proved contract.  The four catalogue entries whose formulas are
//! transcendental keep their domain and minimizer logic here; their
//! floating-point evaluation lives outside the verified library.

pub mod accumulate;
pub mod ackley;
pub mod capability;
pub mod chankong_haimes;
pub mod griewank;
pub mod matyas;
pub mod rastrigin;
pub mod salomon;
pub mod rational;
pub mod ridge;
pub mod rosenbrock;
pub mod sphere;
pub mod zakharov;
