//! The Rastrigin function.
//!
//! Accepts a vector of any length; the canonical problem is bounded to
//! `[-512/100, 512/100]` per coordinate and unconstrained, with minimum
//! value zero at the all-zero vector.
//!
//! The formula `10n + sum(x[i]^2 - 10 cos(2 pi x[i]))` is transcendental:
//! its evaluation needs floating-point cosines and lives outside the
//! verified library.  The domain, the declared minimum and the canonical
//! minimizer are exact and verified here.

use vstd::prelude::*;

use crate::capability::{
    Bounded, NDimensional, UnConstrained, all_in_interval, lemma_zero_seq_in_interval, zero_seq,
    zero_vec,
};
use crate::rational::{Rat, Ratio, all_wf, int_rat, views};

verus! {

/// The all-zero minimizer lies within the canonical bounds.
pub proof fn lemma_rastrigin_minimizer_in_bounds(f: &Rastrigin, n: nat)
    ensures
        all_in_interval(f.spec_bounds().0, f.spec_bounds().1, zero_seq(n)),
{
    lemma_zero_seq_in_interval(f.spec_bounds().0, f.spec_bounds().1, n);
}

/// The Rastrigin benchmark function.
pub struct Rastrigin {}

impl NDimensional for Rastrigin {

}

impl UnConstrained for Rastrigin {

}

impl Bounded for Rastrigin {
    open spec fn spec_bounds(&self) -> (Rat, Rat) {
        (Rat { num: -512, den: 100 }, Rat { num: 512, den: 100 })
    }

    fn bounds(&self) -> (r: (Ratio, Ratio)) {
        (Ratio::new(-512, 100), Ratio::new(512, 100))
    }
}

impl Rastrigin {
    /// The known global minimum value.
    pub fn minimum(&self) -> (r: Ratio)
        ensures
            r.wf(),
            r@ == int_rat(0),
    {
        Ratio::from_int(0)
    }

    /// The canonical minimizing input of length `n`: the all-zero vector.
    pub fn minimizer(&self, n: usize) -> (r: Vec<Ratio>)
        ensures
            r@.len() == n,
            all_wf(r@),
            views(r@) == zero_seq(n as nat),
    {
        zero_vec(n)
    }
}

} // verus!
