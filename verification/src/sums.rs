//! Sums over a dataset of `(x, y)` pairs, and the lemmas the regression
//! contracts are built on.

use vstd::prelude::*;

verus! {

/// Sum of `f` over the elements of `s`.
pub open spec fn psum(s: Seq<(int, int)>, f: spec_fn((int, int)) -> int) -> int
    decreases s.len(),
{
    if s.len() == 0 {
        0
    } else {
        psum(s.drop_last(), f) + f(s.last())
    }
}

/// Sums over matching positions of two datasets agree when the summed
/// terms agree position by position.
pub proof fn lemma_psum_rel(
    s1: Seq<(int, int)>,
    s2: Seq<(int, int)>,
    f: spec_fn((int, int)) -> int,
    g: spec_fn((int, int)) -> int,
)
    requires
        s1.len() == s2.len(),
        forall|i: int| 0 <= i < s1.len() ==> #[trigger] f(s1[i]) == g(s2[i]),
    ensures
        psum(s1, f) == psum(s2, g),
    decreases s1.len(),
{
    if s1.len() > 0 {
        lemma_psum_rel(s1.drop_last(), s2.drop_last(), f, g);
    }
}

/// Removing one element removes exactly its term from the sum.
pub proof fn lemma_psum_remove(s: Seq<(int, int)>, k: int, f: spec_fn((int, int)) -> int)
    requires
        0 <= k < s.len(),
    ensures
        psum(s.remove(k), f) == psum(s, f) - f(s[k]),
    decreases s.len(),
{
    if k == s.len() - 1 {
        assert(s.remove(k) =~= s.drop_last());
    } else {
        assert(s.remove(k).drop_last() =~= s.drop_last().remove(k));
        assert(s.remove(k).last() == s.last());
        lemma_psum_remove(s.drop_last(), k, f);
    }
}

/// A sum does not depend on the order of the elements: two datasets with
/// the same multiset of pairs have the same sum.
pub proof fn lemma_psum_permutation(
    s1: Seq<(int, int)>,
    s2: Seq<(int, int)>,
    f: spec_fn((int, int)) -> int,
)
    requires
        s1.to_multiset() == s2.to_multiset(),
    ensures
        psum(s1, f) == psum(s2, f),
    decreases s2.len(),
{
    broadcast use vstd::seq_lib::group_to_multiset_ensures;

    if s2.len() == 0 {
        assert(s1.to_multiset().len() == s1.len());
        assert(s2.to_multiset().len() == s2.len());
    } else {
        let p = s2.last();
        assert(s2.to_multiset().count(p) > 0);
        assert(s1.to_multiset().count(p) > 0);
        assert(s1.contains(p));
        let k = choose|k: int| 0 <= k < s1.len() && s1[k] == p;
        assert(s2.drop_last() =~= s2.remove(s2.len() - 1));
        assert(s1.remove(k).to_multiset() == s1.to_multiset().remove(p));
        assert(s2.drop_last().to_multiset() == s2.to_multiset().remove(p));
        lemma_psum_permutation(s1.remove(k), s2.drop_last(), f);
        lemma_psum_remove(s1, k, f);
    }
}

/// Closed form for the sum of a quadratic expression in the coordinates:
/// it is the same linear combination of the five basic power sums, plus
/// the constant term once per element.
pub proof fn lemma_psum_combo(
    s: Seq<(int, int)>,
    a1: int,
    a2: int,
    a3: int,
    a4: int,
    a5: int,
    a6: int,
)
    ensures
        psum(
            s,
            |p: (int, int)|
                a1 * p.0 + a2 * p.1 + a3 * (p.0 * p.0) + a4 * (p.0 * p.1) + a5 * (p.1 * p.1) + a6,
        ) == a1 * psum(s, |p: (int, int)| p.0) + a2 * psum(s, |p: (int, int)| p.1) + a3 * psum(
            s,
            |p: (int, int)| p.0 * p.0,
        ) + a4 * psum(s, |p: (int, int)| p.0 * p.1) + a5 * psum(s, |p: (int, int)| p.1 * p.1) + a6
            * s.len(),
    decreases s.len(),
{
    let h = |p: (int, int)|
        a1 * p.0 + a2 * p.1 + a3 * (p.0 * p.0) + a4 * (p.0 * p.1) + a5 * (p.1 * p.1) + a6;
    if s.len() == 0 {
    } else {
        let s0 = s.drop_last();
        lemma_psum_combo(s0, a1, a2, a3, a4, a5, a6);
        let b1 = psum(s0, |p: (int, int)| p.0);
        let b2 = psum(s0, |p: (int, int)| p.1);
        let b3 = psum(s0, |p: (int, int)| p.0 * p.0);
        let b4 = psum(s0, |p: (int, int)| p.0 * p.1);
        let b5 = psum(s0, |p: (int, int)| p.1 * p.1);
        let x = s.last().0;
        let y = s.last().1;
        let m = s0.len() as int;
        assert(a1 * (b1 + x) == a1 * b1 + a1 * x) by (nonlinear_arith);
        assert(a2 * (b2 + y) == a2 * b2 + a2 * y) by (nonlinear_arith);
        assert(a3 * (b3 + x * x) == a3 * b3 + a3 * (x * x)) by (nonlinear_arith);
        assert(a4 * (b4 + x * y) == a4 * b4 + a4 * (x * y)) by (nonlinear_arith);
        assert(a5 * (b5 + y * y) == a5 * b5 + a5 * (y * y)) by (nonlinear_arith);
        assert(a6 * (m + 1) == a6 * m + a6) by (nonlinear_arith);
    }
}

} // verus!
