//! The Zakharov function.
//!
//! Accepts a vector of any length; the canonical problem is bounded to
//! `[-5, 10]` per coordinate and unconstrained, with minimum value zero at
//! the all-zero vector.
//!
//! The value at `x` is `ss + t^2 + t^4`, where `ss` is the sum of squares
//! of the coordinates and `t` is the weighted sum of `1/2 * x[i] * i` over
//! the zero-indexed coordinates.  The fourth power is computed as the
//! square of the square.

use vstd::prelude::*;

use crate::accumulate::{
    lemma_square_sum_fold_exact, lemma_square_sum_zero, square_sum_exact, square_sum_fold,
};
use crate::capability::{
    Bounded, NDimensional, SingleObjective, UnConstrained, all_in_interval,
    lemma_zero_seq_in_interval, zero_seq, zero_vec,
};
use crate::rational::{
    Rat, Ratio, add_c, all_wf, all_wf_rat, checked_add, checked_mul, int_rat, lemma_add_c_exact,
    lemma_add_c_int, lemma_all_wf_rat_drop_last, lemma_mul_c_exact, lemma_mul_c_int,
    lemma_mul_c_zero, lemma_rat_ops_wf, mul_c, opt_rat, rat_add, rat_eq, rat_mul, rat_wf, views,
};

verus! {

/// The weight `1/2` on each linear term.
pub open spec fn half_rat() -> Rat {
    Rat { num: 1, den: 2 }
}

/// One weighted linear step: `acc + (1/2 * x) * i`, checked.  An index
/// beyond the machine integer range cannot be represented as a scalar.
pub open spec fn zakharov_lin_step(acc: Rat, x: Rat, i: int) -> Option<Rat> {
    if i > i64::MAX as int {
        None
    } else {
        match mul_c(half_rat(), x) {
            Some(t) => match mul_c(t, int_rat(i)) {
                Some(u) => add_c(acc, u),
                None => None,
            },
            None => None,
        }
    }
}

/// Checked weighted sum `1/2 * x[i] * i` over the zero-indexed coordinates,
/// accumulated left to right from zero.
pub open spec fn zakharov_lin_fold(s: Seq<Rat>) -> Option<Rat>
    decreases s.len(),
{
    if s.len() == 0 {
        Some(int_rat(0))
    } else {
        match zakharov_lin_fold(s.drop_last()) {
            Some(acc) => zakharov_lin_step(acc, s.last(), s.len() - 1),
            None => None,
        }
    }
}

/// Checked evaluation of the Zakharov formula.
pub open spec fn zakharov_value(s: Seq<Rat>) -> Option<Rat> {
    match square_sum_fold(s) {
        Some(ss) => match zakharov_lin_fold(s) {
            Some(lin) => match mul_c(lin, lin) {
                Some(t2) => match mul_c(t2, t2) {
                    Some(t4) => match add_c(ss, t2) {
                        Some(u) => add_c(u, t4),
                        None => None,
                    },
                    None => None,
                },
                None => None,
            },
            None => None,
        },
        None => None,
    }
}

/// The exact weighted linear sum, over unbounded rationals.
pub open spec fn zakharov_lin_exact(s: Seq<Rat>) -> Rat
    decreases s.len(),
{
    if s.len() == 0 {
        int_rat(0)
    } else {
        rat_add(
            zakharov_lin_exact(s.drop_last()),
            rat_mul(rat_mul(half_rat(), s.last()), int_rat(s.len() - 1)),
        )
    }
}

/// The exact value of the Zakharov formula, over unbounded rationals.
pub open spec fn zakharov_exact(s: Seq<Rat>) -> Rat {
    let t2 = rat_mul(zakharov_lin_exact(s), zakharov_lin_exact(s));
    rat_add(rat_add(square_sum_exact(s), t2), rat_mul(t2, t2))
}

/// A successful checked weighted linear sum denotes the exact sum.
pub proof fn lemma_zakharov_lin_fold_exact(s: Seq<Rat>)
    requires
        all_wf_rat(s),
    ensures
        rat_wf(zakharov_lin_exact(s)),
        zakharov_lin_fold(s) matches Some(q) ==> rat_wf(q) && rat_eq(q, zakharov_lin_exact(s)),
    decreases s.len(),
{
    if s.len() > 0 {
        lemma_all_wf_rat_drop_last(s);
        lemma_zakharov_lin_fold_exact(s.drop_last());
        let x = s.last();
        let i = s.len() - 1;
        assert(rat_wf(s[s.len() - 1]));
        let te = rat_mul(rat_mul(half_rat(), x), int_rat(i));
        lemma_rat_ops_wf(half_rat(), x);
        lemma_rat_ops_wf(rat_mul(half_rat(), x), int_rat(i));
        let e = zakharov_lin_exact(s.drop_last());
        lemma_rat_ops_wf(e, te);
        match zakharov_lin_fold(s.drop_last()) {
            Some(acc) => {
                if i <= i64::MAX as int {
                    lemma_mul_c_exact(half_rat(), half_rat(), x, x);
                    match mul_c(half_rat(), x) {
                        Some(t) => {
                            lemma_mul_c_exact(t, rat_mul(half_rat(), x), int_rat(i), int_rat(i));
                            match mul_c(t, int_rat(i)) {
                                Some(u) => {
                                    lemma_add_c_exact(acc, e, u, te);
                                },
                                None => {},
                            }
                        },
                        None => {},
                    }
                }
            },
            None => {},
        }
    }
}

/// A successful checked evaluation denotes the exact value of the Zakharov
/// formula.
pub proof fn lemma_zakharov_value_exact(s: Seq<Rat>)
    requires
        all_wf_rat(s),
    ensures
        rat_wf(zakharov_exact(s)),
        zakharov_value(s) matches Some(q) ==> rat_wf(q) && rat_eq(q, zakharov_exact(s)),
{
    lemma_square_sum_fold_exact(s);
    lemma_zakharov_lin_fold_exact(s);
    let sse = square_sum_exact(s);
    let le = zakharov_lin_exact(s);
    let t2e = rat_mul(le, le);
    let t4e = rat_mul(t2e, t2e);
    lemma_rat_ops_wf(le, le);
    lemma_rat_ops_wf(t2e, t2e);
    lemma_rat_ops_wf(sse, t2e);
    lemma_rat_ops_wf(rat_add(sse, t2e), t4e);
    match square_sum_fold(s) {
        Some(a) => match zakharov_lin_fold(s) {
            Some(l) => {
                lemma_mul_c_exact(l, le, l, le);
                match mul_c(l, l) {
                    Some(t2) => {
                        lemma_mul_c_exact(t2, t2e, t2, t2e);
                        match mul_c(t2, t2) {
                            Some(t4) => {
                                lemma_add_c_exact(a, sse, t2, t2e);
                                match add_c(a, t2) {
                                    Some(u) => {
                                        lemma_add_c_exact(u, rat_add(sse, t2e), t4, t4e);
                                    },
                                    None => {},
                                }
                            },
                            None => {},
                        }
                    },
                    None => {},
                }
            },
            None => {},
        },
        None => {},
    }
}

/// The weighted linear sum over the all-zero vector is exactly zero.
pub proof fn lemma_zakharov_lin_zero(n: nat)
    requires
        n <= i64::MAX as int,
    ensures
        zakharov_lin_fold(zero_seq(n)) == Some(int_rat(0)),
    decreases n,
{
    if n == 0 {
        assert(zero_seq(n).len() == 0);
    } else {
        lemma_zakharov_lin_zero((n - 1) as nat);
        assert(zero_seq(n).drop_last() =~= zero_seq((n - 1) as nat));
        assert(zero_seq(n).last() == int_rat(0));
        lemma_mul_c_zero(half_rat());
        lemma_mul_c_zero(int_rat(n - 1));
        lemma_add_c_int(0, 0);
    }
}

/// At the all-zero vector of any representable length the Zakharov formula
/// evaluates to exactly zero, the declared minimum.
pub proof fn lemma_zakharov_minimizer_attains_minimum(f: &Zakharov, n: nat)
    requires
        n <= i64::MAX as int,
    ensures
        f.spec_f(f.spec_minimizer(n)) == Some(f.spec_minimum()),
{
    lemma_square_sum_zero(n);
    lemma_zakharov_lin_zero(n);
    lemma_mul_c_int(0, 0);
    lemma_add_c_int(0, 0);
}

/// The all-zero minimizer lies within the canonical bounds.
pub proof fn lemma_zakharov_minimizer_in_bounds(f: &Zakharov, n: nat)
    ensures
        all_in_interval(f.spec_bounds().0, f.spec_bounds().1, f.spec_minimizer(n)),
{
    lemma_zero_seq_in_interval(f.spec_bounds().0, f.spec_bounds().1, n);
}

/// The Zakharov benchmark function.
pub struct Zakharov {}

impl NDimensional for Zakharov {

}

impl UnConstrained for Zakharov {

}

impl Bounded for Zakharov {
    open spec fn spec_bounds(&self) -> (Rat, Rat) {
        (int_rat(-5), int_rat(10))
    }

    fn bounds(&self) -> (r: (Ratio, Ratio)) {
        (Ratio::from_int(-5), Ratio::from_int(10))
    }
}

impl SingleObjective for Zakharov {
    open spec fn spec_minimum(&self) -> Rat {
        int_rat(0)
    }

    open spec fn spec_minimizer(&self, n: nat) -> Seq<Rat> {
        zero_seq(n)
    }

    open spec fn eval_ok(&self, x: Seq<Rat>) -> bool {
        true
    }

    open spec fn spec_f(&self, x: Seq<Rat>) -> Option<Rat> {
        zakharov_value(x)
    }

    fn minimum(&self) -> (r: Ratio) {
        Ratio::from_int(0)
    }

    fn minimizer(&self, n: usize) -> (r: Vec<Ratio>) {
        zero_vec(n)
    }

    fn f(&self, x: &Vec<Ratio>) -> (r: Option<Ratio>) {
        let half = Ratio::new(1, 2);
        let mut ss: Option<Ratio> = Some(Ratio::from_int(0));
        let mut lin: Option<Ratio> = Some(Ratio::from_int(0));
        let mut i: usize = 0;
        while i < x.len()
            invariant
                i <= x@.len(),
                all_wf(x@),
                half.wf(),
                half@ == half_rat(),
                opt_rat(ss) == square_sum_fold(views(x@).subrange(0, i as int)),
                opt_rat(lin) == zakharov_lin_fold(views(x@).subrange(0, i as int)),
                ss matches Some(q) ==> q.wf(),
                lin matches Some(q) ==> q.wf(),
            decreases x@.len() - i,
        {
            proof {
                assert(x@[i as int].wf());
            }
            ss = match ss {
                Some(a) => match checked_mul(&x[i], &x[i]) {
                    Some(t) => checked_add(&a, &t),
                    None => None,
                },
                None => None,
            };
            lin = match lin {
                Some(a) => {
                    let iu: u64 = i as u64;
                    if iu > (i64::MAX as u64) {
                        None
                    } else {
                        let idx = Ratio::from_int(iu as i64);
                        match checked_mul(&half, &x[i]) {
                            Some(t) => match checked_mul(&t, &idx) {
                                Some(u) => checked_add(&a, &u),
                                None => None,
                            },
                            None => None,
                        }
                    }
                },
                None => None,
            };
            proof {
                let s = views(x@);
                assert(s.subrange(0, (i + 1) as int).drop_last() =~= s.subrange(0, i as int));
                assert(s.subrange(0, (i + 1) as int).last() == x@[i as int]@);
                assert(s.subrange(0, (i + 1) as int).len() - 1 == i);
            }
            i = i + 1;
        }
        proof {
            assert(views(x@).subrange(0, x@.len() as int) =~= views(x@));
        }
        match ss {
            Some(a) => match lin {
                Some(l) => match checked_mul(&l, &l) {
                    Some(t2) => match checked_mul(&t2, &t2) {
                        Some(t4) => match checked_add(&a, &t2) {
                            Some(u) => checked_add(&u, &t4),
                            None => None,
                        },
                        None => None,
                    },
                    None => None,
                },
                None => None,
            },
            None => None,
        }
    }
}

} // verus!
