//! Executable least-squares fitting over `i32` samples.
//!
//! Sums are accumulated in `i128`, where they can never overflow; the
//! final combinations use checked arithmetic, and a combination that does
//! not fit in an `i128` is reported as `RegressionError::Overflow`.

use vstd::prelude::*;

use crate::model::{
    dxx, dxx_fits, dxy, dxy_fits, dyy, dyy_fits, in_i128, intercept_den, intercept_fits,
    intercept_num, pairs, r2_fits, sum_x, sum_xx, sum_xy, sum_y, sum_yy,
};

verus! {

/// Why a regression could not be computed.
#[derive(Clone, Copy, Debug, PartialEq, Eq, Structural)]
pub enum RegressionError {
    /// The dataset has no rows.
    EmptyInput,
    /// All x samples are equal, so the slope is undefined.
    ZeroVarianceX,
    /// All y samples are equal, so R-squared is undefined.
    ZeroVarianceY,
    /// An intermediate value does not fit in an `i128`.
    Overflow,
}

/// An exact rational number, as a numerator over a denominator.
#[derive(Clone, Copy, Debug, PartialEq, Eq, Structural)]
pub struct Ratio {
    pub num: i128,
    pub den: i128,
}

/// A fitted line `y = slope * x + intercept`.
#[derive(Clone, Copy, Debug, PartialEq, Eq, Structural)]
pub struct Line {
    pub slope: Ratio,
    pub intercept: Ratio,
}

/// The five power sums of a dataset; they always fit in an `i128`.
struct PowerSums {
    sx: i128,
    sy: i128,
    sxx: i128,
    sxy: i128,
    syy: i128,
}

/// Accumulates the five power sums of the dataset in one pass.
fn power_sums(x: &Vec<i32>, y: &Vec<i32>) -> (r: PowerSums)
    requires
        x@.len() == y@.len(),
    ensures
        r.sx as int == sum_x(pairs(x@, y@)),
        r.sy as int == sum_y(pairs(x@, y@)),
        r.sxx as int == sum_xx(pairs(x@, y@)),
        r.sxy as int == sum_xy(pairs(x@, y@)),
        r.syy as int == sum_yy(pairs(x@, y@)),
{
    let ghost s = pairs(x@, y@);
    let n = x.len();
    let mut sx: i128 = 0;
    let mut sy: i128 = 0;
    let mut sxx: i128 = 0;
    let mut sxy: i128 = 0;
    let mut syy: i128 = 0;
    let mut i: usize = 0;
    while i < n
        invariant
            n == x@.len(),
            x@.len() == y@.len(),
            s == pairs(x@, y@),
            0 <= i <= n,
            sx as int == sum_x(s.take(i as int)),
            sy as int == sum_y(s.take(i as int)),
            sxx as int == sum_xx(s.take(i as int)),
            sxy as int == sum_xy(s.take(i as int)),
            syy as int == sum_yy(s.take(i as int)),
            -((i as int) * 0x8000_0000) <= sx as int <= (i as int) * 0x8000_0000,
            -((i as int) * 0x8000_0000) <= sy as int <= (i as int) * 0x8000_0000,
            0 <= sxx as int <= (i as int) * 0x4000_0000_0000_0000,
            -((i as int) * 0x4000_0000_0000_0000) <= sxy as int <= (i as int)
                * 0x4000_0000_0000_0000,
            0 <= syy as int <= (i as int) * 0x4000_0000_0000_0000,
        decreases n - i,
    {
        let xi = x[i] as i128;
        let yi = y[i] as i128;
        assert(0 <= xi * xi <= 0x4000_0000_0000_0000) by (nonlinear_arith)
            requires
                -0x8000_0000 <= xi <= 0x7fff_ffff,
        ;
        assert(0 <= yi * yi <= 0x4000_0000_0000_0000) by (nonlinear_arith)
            requires
                -0x8000_0000 <= yi <= 0x7fff_ffff,
        ;
        assert(-0x4000_0000_0000_0000 <= xi * yi <= 0x4000_0000_0000_0000) by (nonlinear_arith)
            requires
                -0x8000_0000 <= xi <= 0x7fff_ffff,
                -0x8000_0000 <= yi <= 0x7fff_ffff,
        ;
        proof {
            let t2 = s.take(i + 1 as int);
            assert(t2.drop_last() =~= s.take(i as int));
            assert(t2.last() == (x@[i as int] as int, y@[i as int] as int));
        }
        sx = sx + xi;
        sy = sy + yi;
        sxx = sxx + xi * xi;
        sxy = sxy + xi * yi;
        syy = syy + yi * yi;
        i = i + 1;
    }
    assert(s.take(n as int) =~= s);
    PowerSums { sx, sy, sxx, sxy, syy }
}

/// Computes the least-squares line for the dataset `(x[i], y[i])`.
///
/// On success the slope is exactly `dxy/dxx` and the intercept exactly
/// `intercept_num/intercept_den`, the closed-form solution of ordinary
/// least squares.  The dataset must be nonempty and the x samples must
/// not all be equal; each failure, including an intermediate value
/// overflowing an `i128`, is reported as its own error.
pub fn fit(x: &Vec<i32>, y: &Vec<i32>) -> (r: Result<Line, RegressionError>)
    requires
        x@.len() == y@.len(),
    ensures
        ({
            let s = pairs(x@, y@);
            &&& (r == Err::<Line, RegressionError>(RegressionError::EmptyInput) <==> s.len() == 0)
            &&& (r == Err::<Line, RegressionError>(RegressionError::ZeroVarianceX) <==> s.len() > 0
                && dxx_fits(s) && dxx(s) == 0)
            &&& (r == Err::<Line, RegressionError>(RegressionError::Overflow) <==> s.len() > 0 && (
            !dxx_fits(s) || (dxx(s) != 0 && !(dxy_fits(s) && intercept_fits(s)))))
            &&& (r is Ok <==> s.len() > 0 && dxx_fits(s) && dxx(s) != 0 && dxy_fits(s)
                && intercept_fits(s))
            &&& (r matches Ok(line) ==> {
                &&& line.slope.num as int == dxy(s)
                &&& line.slope.den as int == dxx(s)
                &&& line.intercept.num as int == intercept_num(s)
                &&& line.intercept.den as int == intercept_den(s)
            })
        }),
{
    let n = x.len();
    if n == 0 {
        return Err(RegressionError::EmptyInput);
    }
    let p = power_sums(x, y);
    let ni = n as i128;
    let nsxx = match ni.checked_mul(p.sxx) {
        Some(v) => v,
        None => { return Err(RegressionError::Overflow) },
    };
    let sxsx = match p.sx.checked_mul(p.sx) {
        Some(v) => v,
        None => { return Err(RegressionError::Overflow) },
    };
    let dxx_v = match nsxx.checked_sub(sxsx) {
        Some(v) => v,
        None => { return Err(RegressionError::Overflow) },
    };
    if dxx_v == 0 {
        return Err(RegressionError::ZeroVarianceX);
    }
    let nsxy = match ni.checked_mul(p.sxy) {
        Some(v) => v,
        None => { return Err(RegressionError::Overflow) },
    };
    let sxsy = match p.sx.checked_mul(p.sy) {
        Some(v) => v,
        None => { return Err(RegressionError::Overflow) },
    };
    let dxy_v = match nsxy.checked_sub(sxsy) {
        Some(v) => v,
        None => { return Err(RegressionError::Overflow) },
    };
    let sydxx = match p.sy.checked_mul(dxx_v) {
        Some(v) => v,
        None => { return Err(RegressionError::Overflow) },
    };
    let dxysx = match dxy_v.checked_mul(p.sx) {
        Some(v) => v,
        None => { return Err(RegressionError::Overflow) },
    };
    let icn = match sydxx.checked_sub(dxysx) {
        Some(v) => v,
        None => { return Err(RegressionError::Overflow) },
    };
    let iden = match ni.checked_mul(dxx_v) {
        Some(v) => v,
        None => { return Err(RegressionError::Overflow) },
    };
    Ok(
        Line {
            slope: Ratio { num: dxy_v, den: dxx_v },
            intercept: Ratio { num: icn, den: iden },
        },
    )
}

/// Computes R-squared of the least-squares line of the dataset: the
/// fraction of the variance of `y` that the fitted line explains.
///
/// The result is the exact rational `dxy^2 / (dxx * dyy)`, the reduced
/// closed form of `1 - SSR/SST` for the fitted line.  A dataset whose y
/// samples are all equal has `SST == 0` and is rejected, as is one whose
/// x samples are all equal (no fitted line exists).
pub fn r_squared(x: &Vec<i32>, y: &Vec<i32>) -> (r: Result<Ratio, RegressionError>)
    requires
        x@.len() == y@.len(),
    ensures
        ({
            let s = pairs(x@, y@);
            &&& (r == Err::<Ratio, RegressionError>(RegressionError::EmptyInput) <==> s.len() == 0)
            &&& (r == Err::<Ratio, RegressionError>(RegressionError::ZeroVarianceX) <==> s.len()
                > 0 && dxx_fits(s) && dxx(s) == 0)
            &&& (r == Err::<Ratio, RegressionError>(RegressionError::ZeroVarianceY) <==> s.len()
                > 0 && dxx_fits(s) && dxx(s) != 0 && dyy_fits(s) && dyy(s) == 0)
            &&& (r == Err::<Ratio, RegressionError>(RegressionError::Overflow) <==> s.len() > 0 && (
            !dxx_fits(s) || (dxx(s) != 0 && (!dyy_fits(s) || (dyy(s) != 0 && !(dxy_fits(s)
                && r2_fits(s)))))))
            &&& (r is Ok <==> s.len() > 0 && dxx_fits(s) && dxx(s) != 0 && dyy_fits(s) && dyy(s)
                != 0 && dxy_fits(s) && r2_fits(s))
            &&& (r matches Ok(v) ==> {
                &&& v.num as int == dxy(s) * dxy(s)
                &&& v.den as int == dxx(s) * dyy(s)
            })
        }),
{
    let n = x.len();
    if n == 0 {
        return Err(RegressionError::EmptyInput);
    }
    let p = power_sums(x, y);
    let ni = n as i128;
    let nsxx = match ni.checked_mul(p.sxx) {
        Some(v) => v,
        None => { return Err(RegressionError::Overflow) },
    };
    let sxsx = match p.sx.checked_mul(p.sx) {
        Some(v) => v,
        None => { return Err(RegressionError::Overflow) },
    };
    let dxx_v = match nsxx.checked_sub(sxsx) {
        Some(v) => v,
        None => { return Err(RegressionError::Overflow) },
    };
    if dxx_v == 0 {
        return Err(RegressionError::ZeroVarianceX);
    }
    let nsyy = match ni.checked_mul(p.syy) {
        Some(v) => v,
        None => { return Err(RegressionError::Overflow) },
    };
    let sysy = match p.sy.checked_mul(p.sy) {
        Some(v) => v,
        None => { return Err(RegressionError::Overflow) },
    };
    let dyy_v = match nsyy.checked_sub(sysy) {
        Some(v) => v,
        None => { return Err(RegressionError::Overflow) },
    };
    if dyy_v == 0 {
        return Err(RegressionError::ZeroVarianceY);
    }
    let nsxy = match ni.checked_mul(p.sxy) {
        Some(v) => v,
        None => { return Err(RegressionError::Overflow) },
    };
    let sxsy = match p.sx.checked_mul(p.sy) {
        Some(v) => v,
        None => { return Err(RegressionError::Overflow) },
    };
    let dxy_v = match nsxy.checked_sub(sxsy) {
        Some(v) => v,
        None => { return Err(RegressionError::Overflow) },
    };
    let num = match dxy_v.checked_mul(dxy_v) {
        Some(v) => v,
        None => { return Err(RegressionError::Overflow) },
    };
    let den = match dxx_v.checked_mul(dyy_v) {
        Some(v) => v,
        None => { return Err(RegressionError::Overflow) },
    };
    Ok(Ratio { num, den })
}

} // verus!
