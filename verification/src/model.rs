//! Mathematical model of ordinary least squares over a dataset of
//! `(x, y)` pairs, written over unbounded integers.
//!
//! A dataset is a `Seq<(int, int)>`.  With `n` the number of pairs and
//! `Sx, Sy, Sxx, Sxy, Syy` the power sums, the model works with the
//! centered quantities
//!
//! ```text
//! dxx = n*Sxx - Sx*Sx      (n^2 times the variance of x)
//! dxy = n*Sxy - Sx*Sy      (n^2 times the covariance of x and y)
//! dyy = n*Syy - Sy*Sy      (n^2 times the variance of y)
//! ```
//!
//! The least-squares line is `slope = dxy / dxx` and
//! `intercept = (Sy - slope*Sx) / n`; both are exact rationals.  R-squared
//! is `1 - SSR/SST`, where SSR is the sum of squared residuals of the
//! fitted line and `SST = dyy / n` the total sum of squares.

use vstd::prelude::*;

use crate::sums::psum;

verus! {

/// Sum of the x coordinates.
pub open spec fn sum_x(s: Seq<(int, int)>) -> int {
    psum(s, |p: (int, int)| p.0)
}

/// Sum of the y coordinates.
pub open spec fn sum_y(s: Seq<(int, int)>) -> int {
    psum(s, |p: (int, int)| p.1)
}

/// Sum of the squared x coordinates.
pub open spec fn sum_xx(s: Seq<(int, int)>) -> int {
    psum(s, |p: (int, int)| p.0 * p.0)
}

/// Sum of the products x*y.
pub open spec fn sum_xy(s: Seq<(int, int)>) -> int {
    psum(s, |p: (int, int)| p.0 * p.1)
}

/// Sum of the squared y coordinates.
pub open spec fn sum_yy(s: Seq<(int, int)>) -> int {
    psum(s, |p: (int, int)| p.1 * p.1)
}

/// `n^2` times the variance of the x coordinates.
pub open spec fn dxx(s: Seq<(int, int)>) -> int {
    (s.len() as int) * sum_xx(s) - sum_x(s) * sum_x(s)
}

/// `n^2` times the covariance of the x and y coordinates.  This is the
/// numerator of the least-squares slope; `dxx` is its denominator.
pub open spec fn dxy(s: Seq<(int, int)>) -> int {
    (s.len() as int) * sum_xy(s) - sum_x(s) * sum_y(s)
}

/// `n^2` times the variance of the y coordinates.
pub open spec fn dyy(s: Seq<(int, int)>) -> int {
    (s.len() as int) * sum_yy(s) - sum_y(s) * sum_y(s)
}

/// Numerator of the least-squares intercept `(Sy - slope*Sx) / n`,
/// written over the common denominator `n * dxx`.
pub open spec fn intercept_num(s: Seq<(int, int)>) -> int {
    sum_y(s) * dxx(s) - dxy(s) * sum_x(s)
}

/// Common denominator of the least-squares intercept.
pub open spec fn intercept_den(s: Seq<(int, int)>) -> int {
    (s.len() as int) * dxx(s)
}

/// Datasets built from two columns of `i32` samples: the model of what
/// the executable functions take.
pub open spec fn pairs(x: Seq<i32>, y: Seq<i32>) -> Seq<(int, int)> {
    Seq::new(x.len(), |i: int| (x[i] as int, y[i] as int))
}

/// Whether a mathematical integer is representable as an `i128`.
pub open spec fn in_i128(v: int) -> bool {
    i128::MIN <= v <= i128::MAX
}

/// Every intermediate of the computation of `dxx` fits in an `i128`.
pub open spec fn dxx_fits(s: Seq<(int, int)>) -> bool {
    &&& in_i128((s.len() as int) * sum_xx(s))
    &&& in_i128(sum_x(s) * sum_x(s))
    &&& in_i128(dxx(s))
}

/// Every intermediate of the computation of `dxy` fits in an `i128`.
pub open spec fn dxy_fits(s: Seq<(int, int)>) -> bool {
    &&& in_i128((s.len() as int) * sum_xy(s))
    &&& in_i128(sum_x(s) * sum_y(s))
    &&& in_i128(dxy(s))
}

/// Every intermediate of the computation of `dyy` fits in an `i128`.
pub open spec fn dyy_fits(s: Seq<(int, int)>) -> bool {
    &&& in_i128((s.len() as int) * sum_yy(s))
    &&& in_i128(sum_y(s) * sum_y(s))
    &&& in_i128(dyy(s))
}

/// Every intermediate of the computation of the intercept fits in an
/// `i128`.
pub open spec fn intercept_fits(s: Seq<(int, int)>) -> bool {
    &&& in_i128(sum_y(s) * dxx(s))
    &&& in_i128(dxy(s) * sum_x(s))
    &&& in_i128(intercept_num(s))
    &&& in_i128(intercept_den(s))
}

/// Numerator and denominator of the reduced R-squared value fit in an
/// `i128`.
pub open spec fn r2_fits(s: Seq<(int, int)>) -> bool {
    &&& in_i128(dxy(s) * dxy(s))
    &&& in_i128(dxx(s) * dyy(s))
}

} // verus!
