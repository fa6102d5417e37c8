//! General laws of the regression model, proved once for every dataset.

use vstd::prelude::*;

use crate::model::{
    dxx, dxy, dyy, intercept_den, intercept_num, sum_x, sum_xx, sum_xy, sum_y, sum_yy,
};
use crate::sums::{lemma_psum_combo, lemma_psum_permutation, lemma_psum_rel, psum};

verus! {

/// Law: on a dataset that lies exactly on the line `y = a*x + b`, with
/// at least two rows and non-constant x samples, the least-squares fit
/// recovers slope `a` and intercept `b` exactly, and when `a != 0` the
/// closed-form R-squared is exactly one.  (With `a == 0` the y samples
/// are constant and R-squared is undefined.)
#[verifier::rlimit(100)]
pub proof fn lemma_perfect_fit(s: Seq<(int, int)>, a: int, b: int)
    requires
        s.len() >= 2,
        forall|i: int| 0 <= i < s.len() ==> s[i].1 == a * s[i].0 + b,
        dxx(s) != 0,
    ensures
        dxy(s) == a * dxx(s),
        intercept_num(s) == b * intercept_den(s),
        dyy(s) == a * a * dxx(s),
        a != 0 ==> dxy(s) * dxy(s) == dxx(s) * dyy(s),
{
    let n = s.len() as int;
    let gy = |p: (int, int)|
        a * p.0 + 0 * p.1 + 0 * (p.0 * p.0) + 0 * (p.0 * p.1) + 0 * (p.1 * p.1) + b;
    let gxy = |p: (int, int)|
        b * p.0 + 0 * p.1 + a * (p.0 * p.0) + 0 * (p.0 * p.1) + 0 * (p.1 * p.1) + 0;
    let gyy = |p: (int, int)|
        (2 * a * b) * p.0 + 0 * p.1 + (a * a) * (p.0 * p.0) + 0 * (p.0 * p.1) + 0 * (p.1 * p.1) + b
            * b;
    assert forall|i: int| 0 <= i < s.len() implies #[trigger] (s[i].1) == gy(s[i]) by {}
    assert forall|i: int| 0 <= i < s.len() implies #[trigger] (s[i].0 * s[i].1) == gxy(s[i]) by {
        let x = s[i].0;
        assert(x * (a * x + b) == b * x + a * (x * x)) by (nonlinear_arith);
    }
    assert forall|i: int| 0 <= i < s.len() implies #[trigger] (s[i].1 * s[i].1) == gyy(s[i]) by {
        let x = s[i].0;
        assert((a * x + b) * (a * x + b) == (2 * a * b) * x + (a * a) * (x * x) + b * b)
            by (nonlinear_arith);
    }
    lemma_psum_rel(s, s, |p: (int, int)| p.1, gy);
    lemma_psum_combo(s, a, 0, 0, 0, 0, b);
    lemma_psum_rel(s, s, |p: (int, int)| p.0 * p.1, gxy);
    lemma_psum_combo(s, b, 0, a, 0, 0, 0);
    lemma_psum_rel(s, s, |p: (int, int)| p.1 * p.1, gyy);
    lemma_psum_combo(s, 2 * a * b, 0, a * a, 0, 0, b * b);
    let s1 = sum_x(s);
    let s3 = sum_xx(s);
    assert(dxy(s) == a * dxx(s)) by (nonlinear_arith)
        requires
            dxy(s) == n * (b * s1 + a * s3) - s1 * (a * s1 + b * n),
            dxx(s) == n * s3 - s1 * s1,
    ;
    let syv = sum_y(s);
    let u = a * s1;
    let v = b * n;
    assert(syv * syv == u * u + 2 * (u * v) + v * v) by (nonlinear_arith)
        requires
            syv == u + v,
    ;
    assert(u * u == a * a * (s1 * s1)) by (nonlinear_arith)
        requires
            u == a * s1,
    ;
    assert(v * v == b * b * (n * n)) by (nonlinear_arith)
        requires
            v == b * n,
    ;
    assert(2 * (u * v) == 2 * a * b * (s1 * n)) by (nonlinear_arith)
        requires
            u == a * s1,
            v == b * n,
    ;
    assert(syv * syv == a * a * (s1 * s1) + 2 * a * b * (s1 * n) + b * b * (n * n));
    assert(n * (2 * a * b * s1 + (a * a) * s3 + (b * b) * n) == 2 * a * b * (s1 * n) + a * a * (n
        * s3) + b * b * (n * n)) by (nonlinear_arith);
    assert(a * a * (n * s3) - a * a * (s1 * s1) == a * a * (n * s3 - s1 * s1)) by (nonlinear_arith);
    assert(dyy(s) == a * a * dxx(s));
    assert(intercept_num(s) == b * intercept_den(s)) by (nonlinear_arith)
        requires
            intercept_num(s) == (a * s1 + b * n) * dxx(s) - (a * dxx(s)) * s1,
            intercept_den(s) == n * dxx(s),
    ;
    assert(a != 0 ==> (a * dxx(s)) * (a * dxx(s)) == dxx(s) * (a * a * dxx(s)))
        by (nonlinear_arith);
}

/// Law: on a dataset whose y samples are all equal, the total sum of
/// squares is zero: `dyy == 0`, the condition under which `r_squared`
/// reports the zero-variance error for the dependent variable.
pub proof fn lemma_constant_y(s: Seq<(int, int)>, c: int)
    requires
        forall|i: int| 0 <= i < s.len() ==> s[i].1 == c,
    ensures
        dyy(s) == 0,
{
    let n = s.len() as int;
    let gy = |p: (int, int)|
        0 * p.0 + 0 * p.1 + 0 * (p.0 * p.0) + 0 * (p.0 * p.1) + 0 * (p.1 * p.1) + c;
    let gyy = |p: (int, int)|
        0 * p.0 + 0 * p.1 + 0 * (p.0 * p.0) + 0 * (p.0 * p.1) + 0 * (p.1 * p.1) + c * c;
    assert forall|i: int| 0 <= i < s.len() implies #[trigger] (s[i].1) == gy(s[i]) by {}
    assert forall|i: int| 0 <= i < s.len() implies #[trigger] (s[i].1 * s[i].1) == gyy(s[i]) by {}
    lemma_psum_rel(s, s, |p: (int, int)| p.1, gy);
    lemma_psum_combo(s, 0, 0, 0, 0, 0, c);
    lemma_psum_rel(s, s, |p: (int, int)| p.1 * p.1, gyy);
    lemma_psum_combo(s, 0, 0, 0, 0, 0, c * c);
    assert(n * (c * c * n) - (c * n) * (c * n) == 0) by (nonlinear_arith);
}

/// Law: adding one constant to every y sample leaves slope, variances
/// and R-squared unchanged, and shifts the intercept by exactly that
/// constant (over the unchanged denominator `n * dxx`).
pub proof fn lemma_shift_y(s: Seq<(int, int)>, t: Seq<(int, int)>, c: int)
    requires
        t.len() == s.len(),
        forall|i: int| 0 <= i < s.len() ==> #[trigger] t[i] == (s[i].0, s[i].1 + c),
    ensures
        dxx(t) == dxx(s),
        dxy(t) == dxy(s),
        dyy(t) == dyy(s),
        intercept_num(t) == intercept_num(s) + c * intercept_den(s),
        intercept_den(t) == intercept_den(s),
{
    let n = s.len() as int;
    let gy = |p: (int, int)|
        0 * p.0 + 1 * p.1 + 0 * (p.0 * p.0) + 0 * (p.0 * p.1) + 0 * (p.1 * p.1) + c;
    let gxy = |p: (int, int)|
        c * p.0 + 0 * p.1 + 0 * (p.0 * p.0) + 1 * (p.0 * p.1) + 0 * (p.1 * p.1) + 0;
    let gyy = |p: (int, int)|
        0 * p.0 + (2 * c) * p.1 + 0 * (p.0 * p.0) + 0 * (p.0 * p.1) + 1 * (p.1 * p.1) + c * c;
    assert forall|i: int| 0 <= i < s.len() implies #[trigger] (t[i].0) == s[i].0 by {}
    lemma_psum_rel(t, s, |p: (int, int)| p.0, |p: (int, int)| p.0);
    lemma_psum_rel(t, s, |p: (int, int)| p.0 * p.0, |p: (int, int)| p.0 * p.0);
    assert forall|i: int| 0 <= i < s.len() implies #[trigger] (t[i].1) == gy(s[i]) by {}
    lemma_psum_rel(t, s, |p: (int, int)| p.1, gy);
    lemma_psum_combo(s, 0, 1, 0, 0, 0, c);
    assert forall|i: int| 0 <= i < s.len() implies #[trigger] (t[i].0 * t[i].1) == gxy(s[i]) by {
        let x = s[i].0;
        let y = s[i].1;
        assert(x * (y + c) == c * x + x * y) by (nonlinear_arith);
        assert(gxy(s[i]) == c * x + x * y);
    }
    lemma_psum_rel(t, s, |p: (int, int)| p.0 * p.1, gxy);
    lemma_psum_combo(s, c, 0, 0, 1, 0, 0);
    assert forall|i: int| 0 <= i < s.len() implies #[trigger] (t[i].1 * t[i].1) == gyy(s[i]) by {
        let y = s[i].1;
        assert((y + c) * (y + c) == (2 * c) * y + y * y + c * c) by (nonlinear_arith);
        assert(gyy(s[i]) == (2 * c) * y + y * y + c * c);
    }
    lemma_psum_rel(t, s, |p: (int, int)| p.1 * p.1, gyy);
    lemma_psum_combo(s, 0, 2 * c, 0, 0, 1, c * c);
    let s1 = sum_x(s);
    let s2 = sum_y(s);
    let s3 = sum_xx(s);
    let s4 = sum_xy(s);
    let s5 = sum_yy(s);
    assert(n * (s4 + c * s1) - s1 * (s2 + c * n) == n * s4 - s1 * s2) by (nonlinear_arith);
    assert(n * (s5 + 2 * c * s2 + c * c * n) - (s2 + c * n) * (s2 + c * n) == n * s5 - s2 * s2)
        by (nonlinear_arith);
    assert((s2 + c * n) * dxx(s) - dxy(s) * s1 == (s2 * dxx(s) - dxy(s) * s1) + c * (n * dxx(s)))
        by (nonlinear_arith);
}

/// Law: the fit is order-independent.  Two datasets holding the same
/// rows, in any order, have the same power sums, and with them the same
/// slope, intercept and R-squared.
pub proof fn lemma_permutation(s: Seq<(int, int)>, t: Seq<(int, int)>)
    requires
        s.to_multiset() == t.to_multiset(),
    ensures
        sum_x(t) == sum_x(s),
        sum_y(t) == sum_y(s),
        sum_xx(t) == sum_xx(s),
        sum_xy(t) == sum_xy(s),
        sum_yy(t) == sum_yy(s),
        dxx(t) == dxx(s),
        dxy(t) == dxy(s),
        dyy(t) == dyy(s),
        intercept_num(t) == intercept_num(s),
        intercept_den(t) == intercept_den(s),
{
    broadcast use vstd::seq_lib::group_to_multiset_ensures;

    assert(s.to_multiset().len() == s.len());
    assert(t.to_multiset().len() == t.len());
    lemma_psum_permutation(s, t, |p: (int, int)| p.0);
    lemma_psum_permutation(s, t, |p: (int, int)| p.1);
    lemma_psum_permutation(s, t, |p: (int, int)| p.0 * p.0);
    lemma_psum_permutation(s, t, |p: (int, int)| p.0 * p.1);
    lemma_psum_permutation(s, t, |p: (int, int)| p.1 * p.1);
}

} // verus!
