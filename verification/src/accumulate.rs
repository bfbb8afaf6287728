//! Shared accumulation formulas.
//!
//! Several catalogue entries accumulate a sum of squares or a running
//! product of the coordinates; the checked folds live here so each entry's
//! evaluation contract can name them.

use vstd::prelude::*;

use crate::capability::zero_seq;
use crate::rational::{
    Rat, add_c, all_wf_rat, int_rat, lemma_add_c_exact, lemma_add_c_int,
    lemma_all_wf_rat_drop_last, lemma_mul_c_exact, lemma_mul_c_int, lemma_mul_c_zero,
    lemma_rat_ops_wf, mul_c, rat_add, rat_eq, rat_mul, rat_wf,
};

verus! {

/// Checked sum of the squares of the coordinates, accumulated left to right
/// from zero.
pub open spec fn square_sum_fold(s: Seq<Rat>) -> Option<Rat>
    decreases s.len(),
{
    if s.len() == 0 {
        Some(int_rat(0))
    } else {
        match square_sum_fold(s.drop_last()) {
            Some(acc) => match mul_c(s.last(), s.last()) {
                Some(t) => add_c(acc, t),
                None => None,
            },
            None => None,
        }
    }
}

/// Checked product of the coordinates, accumulated left to right from one.
pub open spec fn product_fold(s: Seq<Rat>) -> Option<Rat>
    decreases s.len(),
{
    if s.len() == 0 {
        Some(int_rat(1))
    } else {
        match product_fold(s.drop_last()) {
            Some(acc) => mul_c(acc, s.last()),
            None => None,
        }
    }
}

/// The exact sum of squares, over unbounded rationals.
pub open spec fn square_sum_exact(s: Seq<Rat>) -> Rat
    decreases s.len(),
{
    if s.len() == 0 {
        int_rat(0)
    } else {
        rat_add(square_sum_exact(s.drop_last()), rat_mul(s.last(), s.last()))
    }
}

/// The exact coordinate product, over unbounded rationals.
pub open spec fn product_exact(s: Seq<Rat>) -> Rat
    decreases s.len(),
{
    if s.len() == 0 {
        int_rat(1)
    } else {
        rat_mul(product_exact(s.drop_last()), s.last())
    }
}

/// A successful checked sum of squares denotes the exact sum of squares.
pub proof fn lemma_square_sum_fold_exact(s: Seq<Rat>)
    requires
        all_wf_rat(s),
    ensures
        rat_wf(square_sum_exact(s)),
        square_sum_fold(s) matches Some(q) ==> rat_wf(q) && rat_eq(q, square_sum_exact(s)),
    decreases s.len(),
{
    if s.len() > 0 {
        lemma_all_wf_rat_drop_last(s);
        lemma_square_sum_fold_exact(s.drop_last());
        let e = square_sum_exact(s.drop_last());
        let x = s.last();
        assert(rat_wf(s[s.len() - 1]));
        lemma_rat_ops_wf(x, x);
        lemma_rat_ops_wf(e, rat_mul(x, x));
        match square_sum_fold(s.drop_last()) {
            Some(acc) => {
                lemma_mul_c_exact(x, x, x, x);
                match mul_c(x, x) {
                    Some(t) => {
                        lemma_add_c_exact(acc, e, t, rat_mul(x, x));
                    },
                    None => {},
                }
            },
            None => {},
        }
    }
}

/// A successful checked coordinate product denotes the exact product.
pub proof fn lemma_product_fold_exact(s: Seq<Rat>)
    requires
        all_wf_rat(s),
    ensures
        rat_wf(product_exact(s)),
        product_fold(s) matches Some(q) ==> rat_wf(q) && rat_eq(q, product_exact(s)),
    decreases s.len(),
{
    if s.len() > 0 {
        lemma_all_wf_rat_drop_last(s);
        lemma_product_fold_exact(s.drop_last());
        let e = product_exact(s.drop_last());
        let x = s.last();
        assert(rat_wf(s[s.len() - 1]));
        lemma_rat_ops_wf(e, x);
        match product_fold(s.drop_last()) {
            Some(acc) => {
                lemma_mul_c_exact(acc, e, x, x);
            },
            None => {},
        }
    }
}

/// The sum of squares of the all-zero vector is exactly zero.
pub proof fn lemma_square_sum_zero(n: nat)
    ensures
        square_sum_fold(zero_seq(n)) == Some(int_rat(0)),
    decreases n,
{
    if n == 0 {
        assert(zero_seq(n).len() == 0);
    } else {
        lemma_square_sum_zero((n - 1) as nat);
        assert(zero_seq(n).drop_last() =~= zero_seq((n - 1) as nat));
        assert(zero_seq(n).last() == int_rat(0));
        lemma_mul_c_int(0, 0);
        lemma_add_c_int(0, 0);
    }
}

/// The product over the all-zero vector is one when the vector is empty and
/// exactly zero otherwise.
pub proof fn lemma_product_zero(n: nat)
    ensures
        n == 0 ==> product_fold(zero_seq(n)) == Some(int_rat(1)),
        n >= 1 ==> product_fold(zero_seq(n)) == Some(int_rat(0)),
    decreases n,
{
    if n == 0 {
        assert(zero_seq(n).len() == 0);
    } else {
        lemma_product_zero((n - 1) as nat);
        assert(zero_seq(n).drop_last() =~= zero_seq((n - 1) as nat));
        assert(zero_seq(n).last() == int_rat(0));
        lemma_mul_c_zero(int_rat(1));
        lemma_mul_c_zero(int_rat(0));
    }
}

} // verus!
