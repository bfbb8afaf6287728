//! The Chankong-Haimes function.
//!
//! A two-objective problem of fixed dimensionality two, with two
//! inequality constraints and no equality constraints; the canonical
//! problem declares no bounds.
//!
//! Objectives: `f0 = 2 + (x0 - 2)^2 - (x1 - 1)^2` and
//! `f1 = 9 x0 - (x1 - 1)^2`.  Constraints: `g0 = x0^2 + x1^2 - 225` and
//! `g1 = x0 - 3 x1 + 10`, satisfied when at most zero.

use vstd::prelude::*;

use crate::capability::{Constrained, EvalError, FixedDimensional, MultiObjective};
use crate::rational::{
    Rat, Ratio, add_c, all_wf_rat, checked_add, checked_mul, checked_sub, int_rat,
    lemma_add_c_exact, lemma_mul_c_exact, lemma_rat_ops_wf, lemma_sub_c_exact, mul_c, rat_add,
    rat_eq, rat_mul, rat_sub, rat_wf, sub_c, views,
};

verus! {

/// Checked evaluation of the two objectives at `(x0, x1) = (s[0], s[1])`.
pub open spec fn chankong_haimes_objectives(s: Seq<Rat>) -> Option<Seq<Rat>> {
    match sub_c(s[0], int_rat(2)) {
        Some(a) => match mul_c(a, a) {
            Some(a2) => match sub_c(s[1], int_rat(1)) {
                Some(b) => match mul_c(b, b) {
                    Some(b2) => match add_c(int_rat(2), a2) {
                        Some(t) => match sub_c(t, b2) {
                            Some(f0) => match mul_c(int_rat(9), s[0]) {
                                Some(c) => match sub_c(c, b2) {
                                    Some(f1) => Some(seq![f0, f1]),
                                    None => None,
                                },
                                None => None,
                            },
                            None => None,
                        },
                        None => None,
                    },
                    None => None,
                },
                None => None,
            },
            None => None,
        },
        None => None,
    }
}

/// Checked evaluation of the two inequality-constraint violations at
/// `(x0, x1) = (s[0], s[1])`.
pub open spec fn chankong_haimes_inequalities(s: Seq<Rat>) -> Option<Seq<Rat>> {
    match mul_c(s[0], s[0]) {
        Some(a) => match mul_c(s[1], s[1]) {
            Some(b) => match add_c(a, b) {
                Some(c) => match sub_c(c, int_rat(225)) {
                    Some(g0) => match mul_c(int_rat(3), s[1]) {
                        Some(d) => match sub_c(s[0], d) {
                            Some(e) => match add_c(e, int_rat(10)) {
                                Some(g1) => Some(seq![g0, g1]),
                                None => None,
                            },
                            None => None,
                        },
                        None => None,
                    },
                    None => None,
                },
                None => None,
            },
            None => None,
        },
        None => None,
    }
}

/// The exact first objective, over unbounded rationals.
pub open spec fn chankong_haimes_f0_exact(s: Seq<Rat>) -> Rat {
    let a = rat_sub(s[0], int_rat(2));
    let b = rat_sub(s[1], int_rat(1));
    rat_sub(rat_add(int_rat(2), rat_mul(a, a)), rat_mul(b, b))
}

/// The exact second objective, over unbounded rationals.
pub open spec fn chankong_haimes_f1_exact(s: Seq<Rat>) -> Rat {
    let b = rat_sub(s[1], int_rat(1));
    rat_sub(rat_mul(int_rat(9), s[0]), rat_mul(b, b))
}

/// The exact inequality-constraint violations, over unbounded rationals.
pub open spec fn chankong_haimes_g0_exact(s: Seq<Rat>) -> Rat {
    rat_sub(rat_add(rat_mul(s[0], s[0]), rat_mul(s[1], s[1])), int_rat(225))
}

/// The exact second inequality-constraint violation.
pub open spec fn chankong_haimes_g1_exact(s: Seq<Rat>) -> Rat {
    rat_add(rat_sub(s[0], rat_mul(int_rat(3), s[1])), int_rat(10))
}

/// A successful checked evaluation denotes the exact objective values.
pub proof fn lemma_chankong_haimes_objectives_exact(s: Seq<Rat>)
    requires
        s.len() >= 2,
        all_wf_rat(s),
    ensures
        rat_wf(chankong_haimes_f0_exact(s)),
        rat_wf(chankong_haimes_f1_exact(s)),
        chankong_haimes_objectives(s) matches Some(v) ==> v.len() == 2 && rat_eq(
            v[0],
            chankong_haimes_f0_exact(s),
        ) && rat_eq(v[1], chankong_haimes_f1_exact(s)),
{
    assert(rat_wf(s[0]));
    assert(rat_wf(s[1]));
    let ae = rat_sub(s[0], int_rat(2));
    let be = rat_sub(s[1], int_rat(1));
    lemma_rat_ops_wf(s[0], int_rat(2));
    lemma_rat_ops_wf(s[1], int_rat(1));
    lemma_rat_ops_wf(ae, ae);
    lemma_rat_ops_wf(be, be);
    lemma_rat_ops_wf(int_rat(2), rat_mul(ae, ae));
    lemma_rat_ops_wf(rat_add(int_rat(2), rat_mul(ae, ae)), rat_mul(be, be));
    lemma_rat_ops_wf(int_rat(9), s[0]);
    lemma_rat_ops_wf(rat_mul(int_rat(9), s[0]), rat_mul(be, be));
    lemma_sub_c_exact(s[0], s[0], int_rat(2), int_rat(2));
    match sub_c(s[0], int_rat(2)) {
        Some(a) => {
            lemma_mul_c_exact(a, ae, a, ae);
            match mul_c(a, a) {
                Some(a2) => {
                    lemma_sub_c_exact(s[1], s[1], int_rat(1), int_rat(1));
                    match sub_c(s[1], int_rat(1)) {
                        Some(b) => {
                            lemma_mul_c_exact(b, be, b, be);
                            match mul_c(b, b) {
                                Some(b2) => {
                                    lemma_add_c_exact(
                                        int_rat(2),
                                        int_rat(2),
                                        a2,
                                        rat_mul(ae, ae),
                                    );
                                    match add_c(int_rat(2), a2) {
                                        Some(t) => {
                                            lemma_sub_c_exact(
                                                t,
                                                rat_add(int_rat(2), rat_mul(ae, ae)),
                                                b2,
                                                rat_mul(be, be),
                                            );
                                            lemma_mul_c_exact(
                                                int_rat(9),
                                                int_rat(9),
                                                s[0],
                                                s[0],
                                            );
                                            match mul_c(int_rat(9), s[0]) {
                                                Some(c) => {
                                                    lemma_sub_c_exact(
                                                        c,
                                                        rat_mul(int_rat(9), s[0]),
                                                        b2,
                                                        rat_mul(be, be),
                                                    );
                                                },
                                                None => {},
                                            }
                                        },
                                        None => {},
                                    }
                                },
                                None => {},
                            }
                        },
                        None => {},
                    }
                },
                None => {},
            }
        },
        None => {},
    }
}

/// A successful checked evaluation denotes the exact constraint violations.
pub proof fn lemma_chankong_haimes_inequalities_exact(s: Seq<Rat>)
    requires
        s.len() >= 2,
        all_wf_rat(s),
    ensures
        rat_wf(chankong_haimes_g0_exact(s)),
        rat_wf(chankong_haimes_g1_exact(s)),
        chankong_haimes_inequalities(s) matches Some(v) ==> v.len() == 2 && rat_eq(
            v[0],
            chankong_haimes_g0_exact(s),
        ) && rat_eq(v[1], chankong_haimes_g1_exact(s)),
{
    assert(rat_wf(s[0]));
    assert(rat_wf(s[1]));
    lemma_rat_ops_wf(s[0], s[0]);
    lemma_rat_ops_wf(s[1], s[1]);
    lemma_rat_ops_wf(rat_mul(s[0], s[0]), rat_mul(s[1], s[1]));
    lemma_rat_ops_wf(rat_add(rat_mul(s[0], s[0]), rat_mul(s[1], s[1])), int_rat(225));
    lemma_rat_ops_wf(int_rat(3), s[1]);
    lemma_rat_ops_wf(s[0], rat_mul(int_rat(3), s[1]));
    lemma_rat_ops_wf(rat_sub(s[0], rat_mul(int_rat(3), s[1])), int_rat(10));
    lemma_mul_c_exact(s[0], s[0], s[0], s[0]);
    match mul_c(s[0], s[0]) {
        Some(a) => {
            lemma_mul_c_exact(s[1], s[1], s[1], s[1]);
            match mul_c(s[1], s[1]) {
                Some(b) => {
                    lemma_add_c_exact(a, rat_mul(s[0], s[0]), b, rat_mul(s[1], s[1]));
                    match add_c(a, b) {
                        Some(c) => {
                            lemma_sub_c_exact(
                                c,
                                rat_add(rat_mul(s[0], s[0]), rat_mul(s[1], s[1])),
                                int_rat(225),
                                int_rat(225),
                            );
                            lemma_mul_c_exact(int_rat(3), int_rat(3), s[1], s[1]);
                            match mul_c(int_rat(3), s[1]) {
                                Some(d) => {
                                    lemma_sub_c_exact(
                                        s[0],
                                        s[0],
                                        d,
                                        rat_mul(int_rat(3), s[1]),
                                    );
                                    match sub_c(s[0], d) {
                                        Some(e) => {
                                            lemma_add_c_exact(
                                                e,
                                                rat_sub(s[0], rat_mul(int_rat(3), s[1])),
                                                int_rat(10),
                                                int_rat(10),
                                            );
                                        },
                                        None => {},
                                    }
                                },
                                None => {},
                            }
                        },
                        None => {},
                    }
                },
                None => {},
            }
        },
        None => {},
    }
}

/// The Chankong-Haimes benchmark function.
pub struct ChankongHaimes {}

impl FixedDimensional for ChankongHaimes {
    open spec fn spec_d(&self) -> nat {
        2
    }

    fn d(&self) -> (r: usize) {
        2
    }
}

impl Constrained for ChankongHaimes {
    open spec fn spec_nh(&self) -> nat {
        0
    }

    open spec fn spec_ng(&self) -> nat {
        2
    }

    open spec fn constraint_ok(&self, x: Seq<Rat>) -> bool {
        x.len() >= 2
    }

    open spec fn spec_h(&self, x: Seq<Rat>) -> Option<Seq<Rat>> {
        Some(Seq::empty())
    }

    open spec fn spec_g(&self, x: Seq<Rat>) -> Option<Seq<Rat>> {
        chankong_haimes_inequalities(x)
    }

    fn nh(&self) -> (r: usize) {
        0
    }

    fn ng(&self) -> (r: usize) {
        2
    }

    fn equality_constraints(&self, _x: &Vec<Ratio>) -> (r: Option<Vec<Ratio>>) {
        let v: Vec<Ratio> = Vec::new();
        proof {
            assert(views(v@) =~= Seq::<Rat>::empty());
        }
        Some(v)
    }

    fn inequality_constraints(&self, x: &Vec<Ratio>) -> (r: Option<Vec<Ratio>>) {
        proof {
            assert(x@[0].wf());
            assert(x@[1].wf());
        }
        let a = match checked_mul(&x[0], &x[0]) {
            Some(t) => t,
            None => {
                return None;
            },
        };
        let b = match checked_mul(&x[1], &x[1]) {
            Some(t) => t,
            None => {
                return None;
            },
        };
        let c = match checked_add(&a, &b) {
            Some(t) => t,
            None => {
                return None;
            },
        };
        let g0 = match checked_sub(&c, &Ratio::from_int(225)) {
            Some(t) => t,
            None => {
                return None;
            },
        };
        let d = match checked_mul(&Ratio::from_int(3), &x[1]) {
            Some(t) => t,
            None => {
                return None;
            },
        };
        let e = match checked_sub(&x[0], &d) {
            Some(t) => t,
            None => {
                return None;
            },
        };
        let g1 = match checked_add(&e, &Ratio::from_int(10)) {
            Some(t) => t,
            None => {
                return None;
            },
        };
        let mut v: Vec<Ratio> = Vec::new();
        v.push(g0);
        v.push(g1);
        proof {
            assert(views(v@) =~= seq![g0@, g1@]);
        }
        Some(v)
    }
}

impl MultiObjective for ChankongHaimes {
    open spec fn spec_m(&self) -> nat {
        2
    }

    open spec fn multi_ok(&self, n: nat) -> bool {
        n == 2
    }

    open spec fn spec_f(&self, x: Seq<Rat>) -> Option<Seq<Rat>> {
        chankong_haimes_objectives(x)
    }

    fn f(&self, x: &Vec<Ratio>) -> (r: Result<Vec<Ratio>, EvalError>) {
        match self.check_input(x) {
            Err(e) => {
                return Err(EvalError::Dimension(e));
            },
            Ok(()) => {},
        }
        proof {
            assert(x@[0].wf());
            assert(x@[1].wf());
        }
        let a = match checked_sub(&x[0], &Ratio::from_int(2)) {
            Some(t) => t,
            None => {
                return Err(EvalError::Overflow);
            },
        };
        let a2 = match checked_mul(&a, &a) {
            Some(t) => t,
            None => {
                return Err(EvalError::Overflow);
            },
        };
        let b = match checked_sub(&x[1], &Ratio::from_int(1)) {
            Some(t) => t,
            None => {
                return Err(EvalError::Overflow);
            },
        };
        let b2 = match checked_mul(&b, &b) {
            Some(t) => t,
            None => {
                return Err(EvalError::Overflow);
            },
        };
        let t = match checked_add(&Ratio::from_int(2), &a2) {
            Some(t) => t,
            None => {
                return Err(EvalError::Overflow);
            },
        };
        let f0 = match checked_sub(&t, &b2) {
            Some(t) => t,
            None => {
                return Err(EvalError::Overflow);
            },
        };
        let c = match checked_mul(&Ratio::from_int(9), &x[0]) {
            Some(t) => t,
            None => {
                return Err(EvalError::Overflow);
            },
        };
        let f1 = match checked_sub(&c, &b2) {
            Some(t) => t,
            None => {
                return Err(EvalError::Overflow);
            },
        };
        let mut v: Vec<Ratio> = Vec::new();
        v.push(f0);
        v.push(f1);
        proof {
            assert(views(v@) =~= seq![f0@, f1@]);
        }
        Ok(v)
    }
}

} // verus!
