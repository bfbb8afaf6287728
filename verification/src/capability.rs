//! Capability contracts.
//!
//! Each benchmark function composes a subset of these independent traits:
//! objective arity ([`SingleObjective`] / [`MultiObjective`]), boundedness
//! ([`Bounded`] / [`UnBounded`]), constraint presence ([`Constrained`] /
//! [`UnConstrained`]) and dimensionality ([`FixedDimensional`] /
//! [`NDimensional`]).  Generic harness code relies only on the contracts
//! stated here, never on a concrete function.

use vstd::prelude::*;

use crate::rational::{
    Rat, Ratio, all_wf, int_rat, opt_rat, rat_eq, rat_le, ratio_eq, views,
};

verus! {

/// The fault a fixed-dimensional function raises when the input length
/// differs from its declared dimensionality.
#[derive(Clone, Copy, Debug, PartialEq, Eq, Structural)]
pub struct DimensionMismatch {
    /// The dimensionality the function declares.
    pub expected: usize,
    /// The length of the input that was supplied.
    pub got: usize,
}

/// The ways an evaluation can fail.
#[derive(Clone, Copy, Debug, PartialEq, Eq, Structural)]
pub enum EvalError {
    /// The input length differs from the declared dimensionality.
    Dimension(DimensionMismatch),
    /// An exact intermediate value left the machine representation.
    Overflow,
}

/// The models of an optional vector of scalars.
pub open spec fn opt_views(r: Option<Vec<Ratio>>) -> Option<Seq<Rat>> {
    match r {
        Some(v) => Some(views(v@)),
        None => None,
    }
}

/// Every coordinate of `s` lies in the closed interval `[lo, hi]`.
pub open spec fn all_in_interval(lo: Rat, hi: Rat, s: Seq<Rat>) -> bool {
    forall|i: int| 0 <= i < s.len() ==> rat_le(lo, #[trigger] s[i]) && rat_le(s[i], hi)
}

/// The all-zero sequence of length `n`.
pub open spec fn zero_seq(n: nat) -> Seq<Rat> {
    Seq::new(n, |i: int| int_rat(0))
}

/// The all-one sequence of length `n`.
pub open spec fn one_seq(n: nat) -> Seq<Rat> {
    Seq::new(n, |i: int| int_rat(1))
}

/// The all-zero sequence lies within any interval that contains zero.
pub proof fn lemma_zero_seq_in_interval(lo: Rat, hi: Rat, n: nat)
    requires
        rat_le(lo, int_rat(0)),
        rat_le(int_rat(0), hi),
    ensures
        all_in_interval(lo, hi, zero_seq(n)),
{
    assert forall|i: int| 0 <= i < zero_seq(n).len() implies rat_le(lo, #[trigger] zero_seq(n)[i])
        && rat_le(zero_seq(n)[i], hi) by {
        assert(zero_seq(n)[i] == int_rat(0));
    }
}

/// The all-zero vector of length `n`.
pub fn zero_vec(n: usize) -> (r: Vec<Ratio>)
    ensures
        r@.len() == n,
        all_wf(r@),
        views(r@) == zero_seq(n as nat),
{
    let mut v: Vec<Ratio> = Vec::new();
    while v.len() < n
        invariant
            v@.len() <= n,
            all_wf(v@),
            views(v@) == zero_seq(v@.len() as nat),
        decreases n - v@.len(),
    {
        let ghost w = v@;
        v.push(Ratio::from_int(0));
        proof {
            assert(all_wf(v@));
            assert forall|j: int| 0 <= j < v@.len() implies views(v@)[j] == int_rat(0) by {
                if j < w.len() {
                    assert(views(w)[j] == zero_seq(w.len() as nat)[j]);
                }
            }
            assert(views(v@) =~= zero_seq(v@.len() as nat));
        }
    }
    v
}

/// The all-one vector of length `n`.
pub fn one_vec(n: usize) -> (r: Vec<Ratio>)
    ensures
        r@.len() == n,
        all_wf(r@),
        views(r@) == one_seq(n as nat),
{
    let mut v: Vec<Ratio> = Vec::new();
    while v.len() < n
        invariant
            v@.len() <= n,
            all_wf(v@),
            views(v@) == one_seq(v@.len() as nat),
        decreases n - v@.len(),
    {
        let ghost w = v@;
        v.push(Ratio::from_int(1));
        proof {
            assert(all_wf(v@));
            assert forall|j: int| 0 <= j < v@.len() implies views(v@)[j] == int_rat(1) by {
                if j < w.len() {
                    assert(views(w)[j] == one_seq(w.len() as nat)[j]);
                }
            }
            assert(views(v@) =~= one_seq(v@.len() as nat));
        }
    }
    v
}

/// A single-objective benchmark function: an evaluation formula together
/// with its known global minimum and a minimizer-generating operation.
pub trait SingleObjective {
    /// The known global minimum value.
    spec fn spec_minimum(&self) -> Rat;

    /// The canonical minimizing input of length `n`.
    spec fn spec_minimizer(&self, n: nat) -> Seq<Rat>;

    /// The inputs the evaluation accepts.
    spec fn eval_ok(&self, x: Seq<Rat>) -> bool;

    /// Checked evaluation of the formula: the exact value, or nothing when
    /// an intermediate leaves the machine representation.
    spec fn spec_f(&self, x: Seq<Rat>) -> Option<Rat>;

    /// The known global minimum.
    fn minimum(&self) -> (r: Ratio)
        ensures
            r.wf(),
            r@ == self.spec_minimum(),
    ;

    /// The canonical minimizing input of length `n`.
    fn minimizer(&self, n: usize) -> (r: Vec<Ratio>)
        ensures
            r@.len() == n,
            all_wf(r@),
            views(r@) == self.spec_minimizer(n as nat),
    ;

    /// Evaluates the objective on `x`.
    fn f(&self, x: &Vec<Ratio>) -> (r: Option<Ratio>)
        requires
            all_wf(x@),
            self.eval_ok(views(x@)),
        ensures
            opt_rat(r) == self.spec_f(views(x@)),
            r matches Some(q) ==> q.wf(),
    ;

    /// The verification harness: whether evaluating the canonical minimizer
    /// of dimensionality `d` reproduces the declared minimum.
    fn check_minimizer(&self, d: usize) -> (r: bool)
        requires
            self.eval_ok(self.spec_minimizer(d as nat)),
        ensures
            r == (match self.spec_f(self.spec_minimizer(d as nat)) {
                Some(v) => rat_eq(v, self.spec_minimum()),
                None => false,
            }),
    {
        let m = self.minimizer(d);
        let fx = self.f(&m);
        match fx {
            Some(v) => {
                let lo = self.minimum();
                ratio_eq(&v, &lo)
            },
            None => false,
        }
    }
}

/// Evaluation is deterministic: any two evaluation results of one
/// single-objective function on the same input are equal, since every
/// result equals the checked evaluation of the input's model.
pub proof fn lemma_evaluation_deterministic<F: SingleObjective>(
    f: &F,
    x: Seq<Rat>,
    r1: Option<Rat>,
    r2: Option<Rat>,
)
    requires
        r1 == f.spec_f(x),
        r2 == f.spec_f(x),
    ensures
        r1 == r2,
{
}

/// A multi-objective benchmark function: evaluation yields one scalar per
/// objective.
pub trait MultiObjective {
    /// The number of objectives.
    spec fn spec_m(&self) -> nat;

    /// The input lengths the evaluation accepts.
    spec fn multi_ok(&self, n: nat) -> bool;

    /// Checked evaluation of the objectives on an accepted input: the exact
    /// values, or nothing when an intermediate leaves the machine
    /// representation.
    spec fn spec_f(&self, x: Seq<Rat>) -> Option<Seq<Rat>>;

    /// Evaluates all objectives on `x`.
    fn f(&self, x: &Vec<Ratio>) -> (r: Result<Vec<Ratio>, EvalError>)
        requires
            all_wf(x@),
        ensures
            match r {
                Ok(v) => self.multi_ok(x@.len() as nat) && all_wf(v@) && v@.len()
                    == self.spec_m() && Some(views(v@)) == self.spec_f(views(x@)),
                Err(EvalError::Dimension(e)) => !self.multi_ok(x@.len() as nat) && e.got
                    == x@.len(),
                Err(EvalError::Overflow) => self.multi_ok(x@.len() as nat) && self.spec_f(
                    views(x@),
                ) is None,
            },
    ;
}

/// Evaluation is deterministic for multi-objective functions as well: any
/// two evaluation results on the same input are equal.
pub proof fn lemma_multi_evaluation_deterministic<F: MultiObjective>(
    f: &F,
    x: Seq<Rat>,
    r1: Option<Seq<Rat>>,
    r2: Option<Seq<Rat>>,
)
    requires
        r1 == f.spec_f(x),
        r2 == f.spec_f(x),
    ensures
        r1 == r2,
{
}

/// A function whose canonical problem restricts every coordinate to a
/// closed interval.
pub trait Bounded {
    /// The closed per-coordinate interval of the canonical problem.
    spec fn spec_bounds(&self) -> (Rat, Rat);

    /// The bounds of the canonical problem, lower then upper.
    fn bounds(&self) -> (r: (Ratio, Ratio))
        ensures
            r.0.wf(),
            r.1.wf(),
            r.0@ == self.spec_bounds().0,
            r.1@ == self.spec_bounds().1,
            rat_le(self.spec_bounds().0, self.spec_bounds().1),
    ;

    /// Whether every coordinate of `x` lies within the bounds, inclusive.
    fn in_bounds(&self, x: &Vec<Ratio>) -> (r: bool)
        requires
            all_wf(x@),
        ensures
            r == all_in_interval(self.spec_bounds().0, self.spec_bounds().1, views(x@)),
    {
        let b = self.bounds();
        let mut i: usize = 0;
        while i < x.len()
            invariant
                i <= x@.len(),
                all_wf(x@),
                b.0.wf(),
                b.1.wf(),
                b.0@ == self.spec_bounds().0,
                b.1@ == self.spec_bounds().1,
                forall|j: int|
                    0 <= j < i ==> rat_le(b.0@, #[trigger] views(x@)[j]) && rat_le(
                        views(x@)[j],
                        b.1@,
                    ),
            decreases x@.len() - i,
        {
            let inside = crate::rational::ratio_le(&b.0, &x[i]) && crate::rational::ratio_le(
                &x[i],
                &b.1,
            );
            if !inside {
                proof {
                    assert(views(x@)[i as int] == x@[i as int]@);
                    assert(!(rat_le(b.0@, views(x@)[i as int]) && rat_le(
                        views(x@)[i as int],
                        b.1@,
                    )));
                }
                return false;
            }
            i = i + 1;
        }
        true
    }
}

/// A function whose canonical problem does not restrict its inputs.  The
/// unbounded domain is a tag, not a usable interval: there is no bounds
/// value to query, and the bounds check accepts every input.
pub trait UnBounded {
    /// Accepts every input.
    fn in_bounds(&self, _x: &Vec<Ratio>) -> (r: bool)
        ensures
            r,
    {
        true
    }
}

/// A function that declares auxiliary constraint operations beside its
/// objectives.  An inequality value at most zero, or an equality value of
/// exactly zero, denotes a satisfied constraint.
pub trait Constrained {
    /// The number of equality constraints.
    spec fn spec_nh(&self) -> nat;

    /// The number of inequality constraints.
    spec fn spec_ng(&self) -> nat;

    /// The inputs on which the constraint operations are defined.
    spec fn constraint_ok(&self, x: Seq<Rat>) -> bool;

    /// Checked evaluation of the equality-constraint violations.
    spec fn spec_h(&self, x: Seq<Rat>) -> Option<Seq<Rat>>;

    /// Checked evaluation of the inequality-constraint violations.
    spec fn spec_g(&self, x: Seq<Rat>) -> Option<Seq<Rat>>;

    /// A constrained function declares itself as such.
    fn constrained(&self) -> (r: bool)
        ensures
            r,
    {
        true
    }

    /// The number of equality constraints.
    fn nh(&self) -> (r: usize)
        ensures
            r as nat == self.spec_nh(),
    ;

    /// The number of inequality constraints.
    fn ng(&self) -> (r: usize)
        ensures
            r as nat == self.spec_ng(),
    ;

    /// The equality-constraint violation values at `x`.
    fn equality_constraints(&self, x: &Vec<Ratio>) -> (r: Option<Vec<Ratio>>)
        requires
            all_wf(x@),
            self.constraint_ok(views(x@)),
        ensures
            opt_views(r) == self.spec_h(views(x@)),
            r matches Some(v) ==> all_wf(v@) && v@.len() == self.spec_nh(),
    ;

    /// The inequality-constraint violation values at `x`.
    fn inequality_constraints(&self, x: &Vec<Ratio>) -> (r: Option<Vec<Ratio>>)
        requires
            all_wf(x@),
            self.constraint_ok(views(x@)),
        ensures
            opt_views(r) == self.spec_g(views(x@)),
            r matches Some(v) ==> all_wf(v@) && v@.len() == self.spec_ng(),
    ;

    /// Alias for [`Constrained::equality_constraints`].
    fn h(&self, x: &Vec<Ratio>) -> (r: Option<Vec<Ratio>>)
        requires
            all_wf(x@),
            self.constraint_ok(views(x@)),
        ensures
            opt_views(r) == self.spec_h(views(x@)),
            r matches Some(v) ==> all_wf(v@) && v@.len() == self.spec_nh(),
    {
        self.equality_constraints(x)
    }

    /// Alias for [`Constrained::inequality_constraints`].
    fn g(&self, x: &Vec<Ratio>) -> (r: Option<Vec<Ratio>>)
        requires
            all_wf(x@),
            self.constraint_ok(views(x@)),
        ensures
            opt_views(r) == self.spec_g(views(x@)),
            r matches Some(v) ==> all_wf(v@) && v@.len() == self.spec_ng(),
    {
        self.inequality_constraints(x)
    }
}

/// A function without constraint operations.
pub trait UnConstrained {
    /// An unconstrained function declares itself as such.
    fn constrained(&self) -> (r: bool)
        ensures
            !r,
    {
        false
    }
}

/// A function that accepts any positive input length; a marker with no
/// concrete dimensionality and no input-length check.
pub trait NDimensional {

}

/// A function that requires an exact input length.
pub trait FixedDimensional {
    /// The required input length.
    spec fn spec_d(&self) -> nat;

    /// The required input length.
    fn d(&self) -> (r: usize)
        ensures
            r as nat == self.spec_d(),
    ;

    /// Rejects an input whose length differs from the declared
    /// dimensionality.
    fn check_input(&self, x: &Vec<Ratio>) -> (r: Result<(), DimensionMismatch>)
        ensures
            r is Ok <==> x@.len() == self.spec_d(),
            r matches Err(e) ==> e.expected as nat == self.spec_d() && e.got == x@.len(),
    {
        let d = self.d();
        if x.len() != d {
            Err(DimensionMismatch { expected: d, got: x.len() })
        } else {
            Ok(())
        }
    }
}

} // verus!
