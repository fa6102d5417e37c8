//! Exact ordinary least-squares linear regression.
//!
//! Given a dataset of paired integer samples `(x_i, y_i)`, the library
//! computes the least-squares line `y = slope * x + intercept` and the
//! coefficient of determination R-squared, all in exact rational
//! arithmetic over 128-bit integers.  Degenerate datasets (empty, zero
//! variance in `x` or in `y`) and results that do not fit in 128 bits are
//! reported as explicit errors instead of silently overflowing or
//! dividing by zero.

pub mod engine;
pub mod laws;
pub mod model;
pub mod sums;

pub use engine::{fit, r_squared, Line, Ratio, RegressionError};

