//! The Matyas function.
//!
//! Accepts a vector of any length; the canonical problem is bounded to
//! `[-10, 10]` per coordinate and unconstrained, with minimum value zero at
//! the all-zero vector.
//!
//! The value at `x` is `26/100 * (sum of squares) - 48/100 * (product of
//! coordinates)`.

use vstd::prelude::*;

use crate::accumulate::{
    lemma_product_fold_exact, lemma_product_zero, lemma_square_sum_fold_exact,
    lemma_square_sum_zero, product_exact, product_fold, square_sum_exact, square_sum_fold,
};
use crate::capability::{
    Bounded, NDimensional, SingleObjective, UnConstrained, all_in_interval,
    lemma_zero_seq_in_interval, zero_seq, zero_vec,
};
use crate::rational::{
    Rat, Ratio, all_wf, all_wf_rat, checked_add, checked_mul, checked_sub, int_rat,
    lemma_mul_c_exact, lemma_mul_c_zero, lemma_rat_ops_wf, lemma_sub_c_exact, lemma_sub_c_int,
    mul_c, opt_rat, rat_eq, rat_mul, rat_sub, rat_wf, sub_c, views,
};

verus! {

/// The coefficient `26/100` on the sum of squares.
pub open spec fn matyas_square_coeff() -> Rat {
    Rat { num: 26, den: 100 }
}

/// The coefficient `48/100` on the coordinate product.
pub open spec fn matyas_product_coeff() -> Rat {
    Rat { num: 48, den: 100 }
}

/// Checked evaluation of the Matyas formula.
pub open spec fn matyas_value(s: Seq<Rat>) -> Option<Rat> {
    match square_sum_fold(s) {
        Some(ss) => match product_fold(s) {
            Some(p) => match mul_c(matyas_square_coeff(), ss) {
                Some(t1) => match mul_c(matyas_product_coeff(), p) {
                    Some(t2) => sub_c(t1, t2),
                    None => None,
                },
                None => None,
            },
            None => None,
        },
        None => None,
    }
}

/// The exact value of the Matyas formula, over unbounded rationals.
pub open spec fn matyas_exact(s: Seq<Rat>) -> Rat {
    rat_sub(
        rat_mul(matyas_square_coeff(), square_sum_exact(s)),
        rat_mul(matyas_product_coeff(), product_exact(s)),
    )
}

/// A successful checked evaluation denotes the exact value of the Matyas
/// formula.
pub proof fn lemma_matyas_value_exact(s: Seq<Rat>)
    requires
        all_wf_rat(s),
    ensures
        rat_wf(matyas_exact(s)),
        matyas_value(s) matches Some(q) ==> rat_wf(q) && rat_eq(q, matyas_exact(s)),
{
    lemma_square_sum_fold_exact(s);
    lemma_product_fold_exact(s);
    let sse = square_sum_exact(s);
    let pe = product_exact(s);
    lemma_rat_ops_wf(matyas_square_coeff(), sse);
    lemma_rat_ops_wf(matyas_product_coeff(), pe);
    lemma_rat_ops_wf(rat_mul(matyas_square_coeff(), sse), rat_mul(matyas_product_coeff(), pe));
    match square_sum_fold(s) {
        Some(ss) => match product_fold(s) {
            Some(p) => {
                lemma_mul_c_exact(matyas_square_coeff(), matyas_square_coeff(), ss, sse);
                match mul_c(matyas_square_coeff(), ss) {
                    Some(t1) => {
                        lemma_mul_c_exact(matyas_product_coeff(), matyas_product_coeff(), p, pe);
                        match mul_c(matyas_product_coeff(), p) {
                            Some(t2) => {
                                lemma_sub_c_exact(
                                    t1,
                                    rat_mul(matyas_square_coeff(), sse),
                                    t2,
                                    rat_mul(matyas_product_coeff(), pe),
                                );
                            },
                            None => {},
                        }
                    },
                    None => {},
                }
            },
            None => {},
        },
        None => {},
    }
}

/// At the all-zero vector of any positive length the Matyas formula
/// evaluates to exactly zero, the declared minimum.  (At the empty vector
/// the coordinate product is one, so the value is `-48/100` instead.)
pub proof fn lemma_matyas_minimizer_attains_minimum(f: &Matyas, n: nat)
    requires
        n >= 1,
    ensures
        f.spec_f(f.spec_minimizer(n)) == Some(f.spec_minimum()),
{
    lemma_square_sum_zero(n);
    lemma_product_zero(n);
    lemma_mul_c_zero(matyas_square_coeff());
    lemma_mul_c_zero(matyas_product_coeff());
    lemma_sub_c_int(0, 0);
}

/// The all-zero minimizer lies within the canonical bounds.
pub proof fn lemma_matyas_minimizer_in_bounds(f: &Matyas, n: nat)
    ensures
        all_in_interval(f.spec_bounds().0, f.spec_bounds().1, f.spec_minimizer(n)),
{
    lemma_zero_seq_in_interval(f.spec_bounds().0, f.spec_bounds().1, n);
}

/// The Matyas benchmark function.
pub struct Matyas {}

impl NDimensional for Matyas {

}

impl UnConstrained for Matyas {

}

impl Bounded for Matyas {
    open spec fn spec_bounds(&self) -> (Rat, Rat) {
        (int_rat(-10), int_rat(10))
    }

    fn bounds(&self) -> (r: (Ratio, Ratio)) {
        (Ratio::from_int(-10), Ratio::from_int(10))
    }
}

impl SingleObjective for Matyas {
    open spec fn spec_minimum(&self) -> Rat {
        int_rat(0)
    }

    open spec fn spec_minimizer(&self, n: nat) -> Seq<Rat> {
        zero_seq(n)
    }

    open spec fn eval_ok(&self, x: Seq<Rat>) -> bool {
        true
    }

    open spec fn spec_f(&self, x: Seq<Rat>) -> Option<Rat> {
        matyas_value(x)
    }

    fn minimum(&self) -> (r: Ratio) {
        Ratio::from_int(0)
    }

    fn minimizer(&self, n: usize) -> (r: Vec<Ratio>) {
        zero_vec(n)
    }

    fn f(&self, x: &Vec<Ratio>) -> (r: Option<Ratio>) {
        let mut ss: Option<Ratio> = Some(Ratio::from_int(0));
        let mut prod: Option<Ratio> = Some(Ratio::from_int(1));
        let mut i: usize = 0;
        while i < x.len()
            invariant
                i <= x@.len(),
                all_wf(x@),
                opt_rat(ss) == square_sum_fold(views(x@).subrange(0, i as int)),
                opt_rat(prod) == product_fold(views(x@).subrange(0, i as int)),
                ss matches Some(q) ==> q.wf(),
                prod matches Some(q) ==> q.wf(),
            decreases x@.len() - i,
        {
            proof {
                assert(x@[i as int].wf());
            }
            ss = match ss {
                Some(a) => match checked_mul(&x[i], &x[i]) {
                    Some(t) => checked_add(&a, &t),
                    None => None,
                },
                None => None,
            };
            prod = match prod {
                Some(a) => checked_mul(&a, &x[i]),
                None => None,
            };
            proof {
                let s = views(x@);
                assert(s.subrange(0, (i + 1) as int).drop_last() =~= s.subrange(0, i as int));
                assert(s.subrange(0, (i + 1) as int).last() == x@[i as int]@);
            }
            i = i + 1;
        }
        proof {
            assert(views(x@).subrange(0, x@.len() as int) =~= views(x@));
        }
        let c_square = Ratio::new(26, 100);
        let c_product = Ratio::new(48, 100);
        match ss {
            Some(a) => match prod {
                Some(p) => match checked_mul(&c_square, &a) {
                    Some(t1) => match checked_mul(&c_product, &p) {
                        Some(t2) => checked_sub(&t1, &t2),
                        None => None,
                    },
                    None => None,
                },
                None => None,
            },
            None => None,
        }
    }
}

} // verus!
