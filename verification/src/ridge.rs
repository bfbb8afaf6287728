//! The Ridge function.
//!
//! Accepts any vector with at least one coordinate; the canonical problem
//! is bounded to `[-5, 5]` per coordinate and unconstrained, with minimum
//! value `-5` at the vector `(-5, 0, 0, ...)`.
//!
//! The formula is `-1 + x[0] + d * (sum of tail squares)^alpha` with the
//! fixed parameters `d = 1` and `alpha = 0`.  A zero exponent makes the
//! tail term one for every input, so the value is `-1 + x[0] + 1` and the
//! tail sum of squares does not influence it.

use vstd::prelude::*;

use crate::capability::{
    Bounded, NDimensional, SingleObjective, UnConstrained, all_in_interval,
};
use crate::rational::{
    Rat, Ratio, add_c, all_wf, all_wf_rat, checked_add, int_rat, lemma_add_c_exact,
    lemma_add_c_int, lemma_rat_ops_wf, rat_add, rat_eq, rat_le, rat_wf, views,
};

verus! {

/// Checked evaluation of the Ridge formula: `(-1 + x[0]) + 1`.
pub open spec fn ridge_value(s: Seq<Rat>) -> Option<Rat> {
    match add_c(int_rat(-1), s[0]) {
        Some(a) => add_c(a, int_rat(1)),
        None => None,
    }
}

/// The exact value of the Ridge formula, over unbounded rationals.
pub open spec fn ridge_exact(s: Seq<Rat>) -> Rat {
    rat_add(rat_add(int_rat(-1), s[0]), int_rat(1))
}

/// A successful checked evaluation denotes the exact value of the Ridge
/// formula.
pub proof fn lemma_ridge_value_exact(s: Seq<Rat>)
    requires
        s.len() >= 1,
        all_wf_rat(s),
    ensures
        rat_wf(ridge_exact(s)),
        ridge_value(s) matches Some(q) ==> rat_wf(q) && rat_eq(q, ridge_exact(s)),
{
    assert(rat_wf(s[0]));
    lemma_rat_ops_wf(int_rat(-1), s[0]);
    lemma_rat_ops_wf(rat_add(int_rat(-1), s[0]), int_rat(1));
    lemma_add_c_exact(int_rat(-1), int_rat(-1), s[0], s[0]);
    match add_c(int_rat(-1), s[0]) {
        Some(a) => {
            lemma_add_c_exact(a, rat_add(int_rat(-1), s[0]), int_rat(1), int_rat(1));
        },
        None => {},
    }
}

/// The canonical minimizer: `-5` in the first coordinate, zero elsewhere.
pub open spec fn ridge_minimizer_seq(n: nat) -> Seq<Rat> {
    Seq::new(
        n,
        |i: int|
            if i == 0 {
                int_rat(-5)
            } else {
                int_rat(0)
            },
    )
}

/// At the canonical minimizer of any positive length the Ridge formula
/// evaluates to exactly `-5`, the declared minimum.
pub proof fn lemma_ridge_minimizer_attains_minimum(f: &Ridge, n: nat)
    requires
        n >= 1,
    ensures
        f.spec_f(f.spec_minimizer(n)) == Some(f.spec_minimum()),
{
    assert(ridge_minimizer_seq(n)[0] == int_rat(-5));
    lemma_add_c_int(-1, -5);
    lemma_add_c_int(-6, 1);
}

/// The canonical minimizer lies within the canonical bounds.
pub proof fn lemma_ridge_minimizer_in_bounds(f: &Ridge, n: nat)
    ensures
        all_in_interval(f.spec_bounds().0, f.spec_bounds().1, f.spec_minimizer(n)),
{
    assert forall|i: int| 0 <= i < ridge_minimizer_seq(n).len() implies rat_le(
        f.spec_bounds().0,
        #[trigger] ridge_minimizer_seq(n)[i],
    ) && rat_le(ridge_minimizer_seq(n)[i], f.spec_bounds().1) by {
        if i == 0 {
            assert(ridge_minimizer_seq(n)[i] == int_rat(-5));
        } else {
            assert(ridge_minimizer_seq(n)[i] == int_rat(0));
        }
    }
}

/// The Ridge benchmark function.
pub struct Ridge {}

impl NDimensional for Ridge {

}

impl UnConstrained for Ridge {

}

impl Bounded for Ridge {
    open spec fn spec_bounds(&self) -> (Rat, Rat) {
        (int_rat(-5), int_rat(5))
    }

    fn bounds(&self) -> (r: (Ratio, Ratio)) {
        (Ratio::from_int(-5), Ratio::from_int(5))
    }
}

impl SingleObjective for Ridge {
    open spec fn spec_minimum(&self) -> Rat {
        int_rat(-5)
    }

    open spec fn spec_minimizer(&self, n: nat) -> Seq<Rat> {
        ridge_minimizer_seq(n)
    }

    open spec fn eval_ok(&self, x: Seq<Rat>) -> bool {
        x.len() >= 1
    }

    open spec fn spec_f(&self, x: Seq<Rat>) -> Option<Rat> {
        ridge_value(x)
    }

    fn minimum(&self) -> (r: Ratio) {
        Ratio::from_int(-5)
    }

    fn minimizer(&self, n: usize) -> (r: Vec<Ratio>) {
        let mut v: Vec<Ratio> = Vec::new();
        let mut i: usize = 0;
        while i < n
            invariant
                i <= n,
                v@.len() == i,
                all_wf(v@),
                forall|j: int| 0 <= j < i ==> #[trigger] views(v@)[j] == ridge_minimizer_seq(
                    n as nat,
                )[j],
            decreases n - i,
        {
            let ghost w = v@;
            if i == 0 {
                v.push(Ratio::from_int(-5));
            } else {
                v.push(Ratio::from_int(0));
            }
            proof {
                assert(all_wf(v@));
                assert forall|j: int| 0 <= j < v@.len() implies #[trigger] views(v@)[j]
                    == ridge_minimizer_seq(n as nat)[j] by {
                    if j < w.len() {
                        assert(views(w)[j] == ridge_minimizer_seq(n as nat)[j]);
                    }
                }
            }
            i = i + 1;
        }
        proof {
            assert(views(v@) =~= ridge_minimizer_seq(n as nat));
        }
        v
    }

    fn f(&self, x: &Vec<Ratio>) -> (r: Option<Ratio>) {
        proof {
            assert(x@[0].wf());
        }
        let minus_one = Ratio::from_int(-1);
        let one = Ratio::from_int(1);
        match checked_add(&minus_one, &x[0]) {
            Some(a) => checked_add(&a, &one),
            None => None,
        }
    }
}

} // verus!
