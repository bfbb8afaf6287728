//! The Rosenbrock function.
//!
//! Accepts any vector with at least one coordinate; the canonical problem
//! is bounded to `[-5, 10]` per coordinate and unconstrained, with minimum
//! value zero at the all-one vector.
//!
//! The value at `x` is the sum over adjacent pairs of
//! `100 * (x[i+1] - x[i]^2)^2 + (1 - x[i])^2`.

use vstd::prelude::*;

use crate::capability::{
    Bounded, NDimensional, SingleObjective, UnConstrained, all_in_interval, one_seq, one_vec,
};
use crate::rational::{
    Rat, Ratio, add_c, all_wf, all_wf_rat, checked_add, checked_mul, checked_sub, int_rat,
    lemma_add_c_exact, lemma_add_c_int, lemma_all_wf_rat_drop_last, lemma_mul_c_exact,
    lemma_mul_c_int, lemma_rat_ops_wf, lemma_sub_c_exact, lemma_sub_c_int, mul_c, opt_rat,
    rat_add, rat_eq, rat_le, rat_mul, rat_sub, rat_wf, sub_c, views,
};

verus! {

/// One adjacent-pair term: `100 * (b - a^2)^2 + (1 - a)^2`, checked.
pub open spec fn rosenbrock_term(a: Rat, b: Rat) -> Option<Rat> {
    match mul_c(a, a) {
        Some(sq) => match sub_c(b, sq) {
            Some(d) => match mul_c(d, d) {
                Some(d2) => match mul_c(int_rat(100), d2) {
                    Some(high) => match sub_c(int_rat(1), a) {
                        Some(e) => match mul_c(e, e) {
                            Some(e2) => add_c(high, e2),
                            None => None,
                        },
                        None => None,
                    },
                    None => None,
                },
                None => None,
            },
            None => None,
        },
        None => None,
    }
}

/// Checked evaluation of the Rosenbrock formula: the sum of
/// [`rosenbrock_term`] over adjacent coordinate pairs, accumulated left to
/// right from zero.
pub open spec fn rosenbrock_fold(s: Seq<Rat>) -> Option<Rat>
    decreases s.len(),
{
    if s.len() <= 1 {
        Some(int_rat(0))
    } else {
        match rosenbrock_fold(s.drop_last()) {
            Some(acc) => match rosenbrock_term(s[s.len() - 2], s.last()) {
                Some(t) => add_c(acc, t),
                None => None,
            },
            None => None,
        }
    }
}

/// The exact value of one adjacent-pair term, over unbounded rationals.
pub open spec fn rosenbrock_term_exact(a: Rat, b: Rat) -> Rat {
    rat_add(
        rat_mul(
            int_rat(100),
            rat_mul(rat_sub(b, rat_mul(a, a)), rat_sub(b, rat_mul(a, a))),
        ),
        rat_mul(rat_sub(int_rat(1), a), rat_sub(int_rat(1), a)),
    )
}

/// The exact value of the Rosenbrock formula, over unbounded rationals.
pub open spec fn rosenbrock_exact(s: Seq<Rat>) -> Rat
    decreases s.len(),
{
    if s.len() <= 1 {
        int_rat(0)
    } else {
        rat_add(rosenbrock_exact(s.drop_last()), rosenbrock_term_exact(s[s.len() - 2], s.last()))
    }
}

/// A successful checked term denotes the exact term value.
pub proof fn lemma_rosenbrock_term_exact(a: Rat, b: Rat)
    requires
        rat_wf(a),
        rat_wf(b),
    ensures
        rat_wf(rosenbrock_term_exact(a, b)),
        rosenbrock_term(a, b) matches Some(t) ==> rat_wf(t) && rat_eq(
            t,
            rosenbrock_term_exact(a, b),
        ),
{
    let de = rat_sub(b, rat_mul(a, a));
    let ee = rat_sub(int_rat(1), a);
    lemma_rat_ops_wf(a, a);
    lemma_rat_ops_wf(b, rat_mul(a, a));
    lemma_rat_ops_wf(de, de);
    lemma_rat_ops_wf(int_rat(100), rat_mul(de, de));
    lemma_rat_ops_wf(int_rat(1), a);
    lemma_rat_ops_wf(ee, ee);
    lemma_rat_ops_wf(rat_mul(int_rat(100), rat_mul(de, de)), rat_mul(ee, ee));
    lemma_mul_c_exact(a, a, a, a);
    match mul_c(a, a) {
        Some(sq) => {
            lemma_sub_c_exact(b, b, sq, rat_mul(a, a));
            match sub_c(b, sq) {
                Some(d) => {
                    lemma_mul_c_exact(d, de, d, de);
                    match mul_c(d, d) {
                        Some(d2) => {
                            lemma_mul_c_exact(int_rat(100), int_rat(100), d2, rat_mul(de, de));
                            match mul_c(int_rat(100), d2) {
                                Some(high) => {
                                    lemma_sub_c_exact(int_rat(1), int_rat(1), a, a);
                                    match sub_c(int_rat(1), a) {
                                        Some(e) => {
                                            lemma_mul_c_exact(e, ee, e, ee);
                                            match mul_c(e, e) {
                                                Some(e2) => {
                                                    lemma_add_c_exact(
                                                        high,
                                                        rat_mul(int_rat(100), rat_mul(de, de)),
                                                        e2,
                                                        rat_mul(ee, ee),
                                                    );
                                                },
                                                None => {},
                                            }
                                        },
                                        None => {},
                                    }
                                },
                                None => {},
                            }
                        },
                        None => {},
                    }
                },
                None => {},
            }
        },
        None => {},
    }
}

/// A successful checked evaluation denotes the exact value of the
/// Rosenbrock formula.
pub proof fn lemma_rosenbrock_fold_exact(s: Seq<Rat>)
    requires
        all_wf_rat(s),
    ensures
        rat_wf(rosenbrock_exact(s)),
        rosenbrock_fold(s) matches Some(q) ==> rat_wf(q) && rat_eq(q, rosenbrock_exact(s)),
    decreases s.len(),
{
    if s.len() > 1 {
        lemma_all_wf_rat_drop_last(s);
        lemma_rosenbrock_fold_exact(s.drop_last());
        let a = s[s.len() - 2];
        let b = s.last();
        assert(rat_wf(s[s.len() - 2]));
        assert(rat_wf(s[s.len() - 1]));
        let e = rosenbrock_exact(s.drop_last());
        lemma_rosenbrock_term_exact(a, b);
        lemma_rat_ops_wf(e, rosenbrock_term_exact(a, b));
        match rosenbrock_fold(s.drop_last()) {
            Some(acc) => {
                match rosenbrock_term(a, b) {
                    Some(t) => {
                        lemma_add_c_exact(acc, e, t, rosenbrock_term_exact(a, b));
                    },
                    None => {},
                }
            },
            None => {},
        }
    }
}

/// At the all-one vector of any length the Rosenbrock formula evaluates to
/// exactly zero, the declared minimum.
pub proof fn lemma_rosenbrock_minimizer_attains_minimum(f: &Rosenbrock, n: nat)
    ensures
        f.spec_f(f.spec_minimizer(n)) == Some(f.spec_minimum()),
    decreases n,
{
    if n <= 1 {
        assert(one_seq(n).len() == n);
    } else {
        lemma_rosenbrock_minimizer_attains_minimum(f, (n - 1) as nat);
        assert(one_seq(n).drop_last() =~= one_seq((n - 1) as nat));
        assert(one_seq(n).last() == int_rat(1));
        assert(one_seq(n)[n - 2] == int_rat(1));
        lemma_mul_c_int(1, 1);
        lemma_sub_c_int(1, 1);
        lemma_mul_c_int(0, 0);
        lemma_mul_c_int(100, 0);
        lemma_add_c_int(0, 0);
        assert(rosenbrock_term(int_rat(1), int_rat(1)) == Some(int_rat(0)));
    }
}

/// The all-one minimizer lies within the canonical bounds.
pub proof fn lemma_rosenbrock_minimizer_in_bounds(f: &Rosenbrock, n: nat)
    ensures
        all_in_interval(f.spec_bounds().0, f.spec_bounds().1, f.spec_minimizer(n)),
{
    assert forall|i: int| 0 <= i < one_seq(n).len() implies rat_le(
        f.spec_bounds().0,
        #[trigger] one_seq(n)[i],
    ) && rat_le(one_seq(n)[i], f.spec_bounds().1) by {
        assert(one_seq(n)[i] == int_rat(1));
    }
}

/// The Rosenbrock benchmark function.
pub struct Rosenbrock {}

impl NDimensional for Rosenbrock {

}

impl UnConstrained for Rosenbrock {

}

impl Bounded for Rosenbrock {
    open spec fn spec_bounds(&self) -> (Rat, Rat) {
        (int_rat(-5), int_rat(10))
    }

    fn bounds(&self) -> (r: (Ratio, Ratio)) {
        (Ratio::from_int(-5), Ratio::from_int(10))
    }
}

impl SingleObjective for Rosenbrock {
    open spec fn spec_minimum(&self) -> Rat {
        int_rat(0)
    }

    open spec fn spec_minimizer(&self, n: nat) -> Seq<Rat> {
        one_seq(n)
    }

    open spec fn eval_ok(&self, x: Seq<Rat>) -> bool {
        x.len() >= 1
    }

    open spec fn spec_f(&self, x: Seq<Rat>) -> Option<Rat> {
        rosenbrock_fold(x)
    }

    fn minimum(&self) -> (r: Ratio) {
        Ratio::from_int(0)
    }

    fn minimizer(&self, n: usize) -> (r: Vec<Ratio>) {
        one_vec(n)
    }

    fn f(&self, x: &Vec<Ratio>) -> (r: Option<Ratio>) {
        let n = x.len();
        let mut acc: Option<Ratio> = Some(Ratio::from_int(0));
        let mut i: usize = 0;
        let hundred = Ratio::from_int(100);
        let one = Ratio::from_int(1);
        while i < n - 1
            invariant
                n == x@.len(),
                n >= 1,
                i <= n - 1,
                all_wf(x@),
                hundred.wf(),
                hundred@ == int_rat(100),
                one.wf(),
                one@ == int_rat(1),
                opt_rat(acc) == rosenbrock_fold(views(x@).subrange(0, (i + 1) as int)),
                acc matches Some(q) ==> q.wf(),
            decreases n - 1 - i,
        {
            proof {
                assert(x@[i as int].wf());
                assert(x@[i + 1].wf());
            }
            acc = match acc {
                Some(a) => {
                    let term = match checked_mul(&x[i], &x[i]) {
                        Some(sq) => match checked_sub(&x[i + 1], &sq) {
                            Some(d) => match checked_mul(&d, &d) {
                                Some(d2) => match checked_mul(&hundred, &d2) {
                                    Some(high) => match checked_sub(&one, &x[i]) {
                                        Some(e) => match checked_mul(&e, &e) {
                                            Some(e2) => checked_add(&high, &e2),
                                            None => None,
                                        },
                                        None => None,
                                    },
                                    None => None,
                                },
                                None => None,
                            },
                            None => None,
                        },
                        None => None,
                    };
                    match term {
                        Some(t) => checked_add(&a, &t),
                        None => None,
                    }
                },
                None => None,
            };
            proof {
                let s = views(x@);
                assert(s.subrange(0, (i + 2) as int).drop_last() =~= s.subrange(0, (i + 1) as int));
                assert(s.subrange(0, (i + 2) as int).last() == x@[i + 1]@);
                assert(s.subrange(0, (i + 2) as int)[i as int] == x@[i as int]@);
            }
            i = i + 1;
        }
        proof {
            assert(views(x@).subrange(0, x@.len() as int) =~= views(x@));
        }
        acc
    }
}

} // verus!
