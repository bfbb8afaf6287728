//! The Salomon function.
//!
//! Accepts a vector of any length; the canonical problem is bounded to
//! `[-100, 100]` per coordinate and unconstrained, with minimum
//! value zero at the all-zero vector.
//!
//! The formula `1 - cos(2 pi sqrt(ss)) + 1/10 sqrt(ss)` is transcendental:
//! its evaluation needs floating-point cosines and square roots and lives
//! outside the verified library.  The domain, the declared minimum and the
//! canonical minimizer are exact and verified here.

use vstd::prelude::*;

use crate::capability::{
    Bounded, NDimensional, UnConstrained, all_in_interval, lemma_zero_seq_in_interval, zero_seq,
    zero_vec,
};
use crate::rational::{Rat, Ratio, all_wf, int_rat, views};

verus! {

/// The all-zero minimizer lies within the canonical bounds.
pub proof fn lemma_salomon_minimizer_in_bounds(f: &Salomon, n: nat)
    ensures
        all_in_interval(f.spec_bounds().0, f.spec_bounds().1, zero_seq(n)),
{
    lemma_zero_seq_in_interval(f.spec_bounds().0, f.spec_bounds().1, n);
}

/// The Salomon benchmark function.
pub struct Salomon {}

impl NDimensional for Salomon {

}

impl UnConstrained for Salomon {

}

impl Bounded for Salomon {
    open spec fn spec_bounds(&self) -> (Rat, Rat) {
        (int_rat(-100), int_rat(100))
    }

    fn bounds(&self) -> (r: (Ratio, Ratio)) {
        (Ratio::from_int(-100), Ratio::from_int(100))
    }
}

impl Salomon {
    /// The known global minimum value.
    pub fn minimum(&self) -> (r: Ratio)
        ensures
            r.wf(),
            r@ == int_rat(0),
    {
        Ratio::from_int(0)
    }

    /// The canonical minimizing input of length `n`: the all-zero vector.
    pub fn minimizer(&self, n: usize) -> (r: Vec<Ratio>)
        ensures
            r@.len() == n,
            all_wf(r@),
            views(r@) == zero_seq(n as nat),
    {
        zero_vec(n)
    }
}

} // verus!
