//! Exact rational scalars.
//!
//! Every quantity the catalogue works with — inputs, bounds, minima,
//! objective values, constraint violations — is an exact rational number.
//! The ghost type [`Rat`] is the mathematical model (an integer numerator
//! over a positive integer denominator); the executable type [`Ratio`]
//! carries the same data in machine integers.  Arithmetic is checked: an
//! operation whose result does not fit the machine representation reports
//! that instead of wrapping.

use vstd::prelude::*;

verus! {

/// Mathematical model of a rational number: `num / den` with `den` positive.
pub ghost struct Rat {
    pub num: int,
    pub den: int,
}

/// The rational `n / 1`.
pub open spec fn int_rat(n: int) -> Rat {
    Rat { num: n, den: 1 }
}

/// A well-formed model keeps its denominator positive.
pub open spec fn rat_wf(a: Rat) -> bool {
    a.den >= 1
}

/// `a` and `b` denote the same rational, by cross-multiplication.
pub open spec fn rat_eq(a: Rat, b: Rat) -> bool {
    a.num * b.den == b.num * a.den
}

/// `a <= b`, by cross-multiplication; meaningful for well-formed models.
pub open spec fn rat_le(a: Rat, b: Rat) -> bool {
    a.num * b.den <= b.num * a.den
}

pub open spec fn rat_add(a: Rat, b: Rat) -> Rat {
    Rat { num: a.num * b.den + b.num * a.den, den: a.den * b.den }
}

pub open spec fn rat_sub(a: Rat, b: Rat) -> Rat {
    Rat { num: a.num * b.den - b.num * a.den, den: a.den * b.den }
}

pub open spec fn rat_mul(a: Rat, b: Rat) -> Rat {
    Rat { num: a.num * b.num, den: a.den * b.den }
}

/// Zero is kept in its canonical representation `0 / 1`.
pub open spec fn rat_norm(r: Rat) -> Rat {
    if r.num == 0 {
        Rat { num: 0, den: 1 }
    } else {
        r
    }
}

/// Whether a model fits the machine representation.
pub open spec fn rat_fits(r: Rat) -> bool {
    i64::MIN <= r.num <= i64::MAX && 1 <= r.den <= i64::MAX
}

/// The result of a checked operation: the normalized value when it fits,
/// nothing otherwise.
pub open spec fn rat_checked(r: Rat) -> Option<Rat> {
    if rat_fits(rat_norm(r)) {
        Some(rat_norm(r))
    } else {
        None
    }
}

/// Checked addition, as the executable [`checked_add`] performs it.
pub open spec fn add_c(a: Rat, b: Rat) -> Option<Rat> {
    rat_checked(rat_add(a, b))
}

/// Checked subtraction, as the executable [`checked_sub`] performs it.
pub open spec fn sub_c(a: Rat, b: Rat) -> Option<Rat> {
    rat_checked(rat_sub(a, b))
}

/// Checked multiplication, as the executable [`checked_mul`] performs it.
pub open spec fn mul_c(a: Rat, b: Rat) -> Option<Rat> {
    rat_checked(rat_mul(a, b))
}

/// Checked addition of integer scalars stays integer.
pub proof fn lemma_add_c_int(a: int, b: int)
    requires
        i64::MIN <= a + b <= i64::MAX,
    ensures
        add_c(int_rat(a), int_rat(b)) == Some(int_rat(a + b)),
{
    assert(rat_add(int_rat(a), int_rat(b)).num == a + b);
    assert(rat_add(int_rat(a), int_rat(b)).den == 1);
    assert(rat_norm(rat_add(int_rat(a), int_rat(b))) == int_rat(a + b));
}

/// Checked subtraction of integer scalars stays integer.
pub proof fn lemma_sub_c_int(a: int, b: int)
    requires
        i64::MIN <= a - b <= i64::MAX,
    ensures
        sub_c(int_rat(a), int_rat(b)) == Some(int_rat(a - b)),
{
    assert(rat_sub(int_rat(a), int_rat(b)).num == a - b);
    assert(rat_sub(int_rat(a), int_rat(b)).den == 1);
    assert(rat_norm(rat_sub(int_rat(a), int_rat(b))) == int_rat(a - b));
}

/// Checked multiplication of integer scalars stays integer.
pub proof fn lemma_mul_c_int(a: int, b: int)
    requires
        i64::MIN <= a * b <= i64::MAX,
    ensures
        mul_c(int_rat(a), int_rat(b)) == Some(int_rat(a * b)),
{
    assert(rat_mul(int_rat(a), int_rat(b)).num == a * b);
    assert(rat_mul(int_rat(a), int_rat(b)).den == 1);
    assert(rat_norm(rat_mul(int_rat(a), int_rat(b))) == int_rat(a * b));
}

/// Normalization does not change the denoted rational.
pub proof fn lemma_rat_norm_eq(r: Rat)
    ensures
        rat_eq(rat_norm(r), r),
{
}

/// Denoting the same rational is transitive over well-formed models.
pub proof fn lemma_rat_eq_trans(a: Rat, b: Rat, c: Rat)
    requires
        rat_wf(a),
        rat_wf(b),
        rat_wf(c),
        rat_eq(a, b),
        rat_eq(b, c),
    ensures
        rat_eq(a, c),
{
    assert((a.num * c.den) * b.den == (a.num * b.den) * c.den) by (nonlinear_arith);
    assert((b.num * a.den) * c.den == (b.num * c.den) * a.den) by (nonlinear_arith);
    assert((c.num * b.den) * a.den == (c.num * a.den) * b.den) by (nonlinear_arith);
    assert((a.num * c.den) * b.den == (c.num * a.den) * b.den);
    assert(a.num * c.den == c.num * a.den) by (nonlinear_arith)
        requires
            b.den >= 1,
            (a.num * c.den) * b.den == (c.num * a.den) * b.den,
    ;
}

/// The arithmetic operations preserve well-formedness.
pub proof fn lemma_rat_ops_wf(a: Rat, b: Rat)
    by (nonlinear_arith)
    requires
        rat_wf(a),
        rat_wf(b),
    ensures
        rat_wf(rat_add(a, b)),
        rat_wf(rat_sub(a, b)),
        rat_wf(rat_mul(a, b)),
        rat_wf(rat_norm(rat_add(a, b))),
        rat_wf(rat_norm(rat_sub(a, b))),
        rat_wf(rat_norm(rat_mul(a, b))),
{
}

proof fn lemma_distribute(p: int, q: int, k: int)
    by (nonlinear_arith)
    ensures
        (p + q) * k == p * k + q * k,
        (p - q) * k == p * k - q * k,
{
}

proof fn lemma_regroup(x: int, y: int, z: int, w: int)
    by (nonlinear_arith)
    ensures
        (x * y) * (z * w) == (x * z) * (y * w),
{
}

/// Addition respects the denoted rationals.
pub proof fn lemma_rat_add_congruence(a1: Rat, a2: Rat, b1: Rat, b2: Rat)
    requires
        rat_wf(a1),
        rat_wf(a2),
        rat_wf(b1),
        rat_wf(b2),
        rat_eq(a1, a2),
        rat_eq(b1, b2),
    ensures
        rat_eq(rat_add(a1, b1), rat_add(a2, b2)),
{
    lemma_distribute(a1.num * b1.den, b1.num * a1.den, a2.den * b2.den);
    lemma_distribute(a2.num * b2.den, b2.num * a2.den, a1.den * b1.den);
    lemma_regroup(a1.num, b1.den, a2.den, b2.den);
    lemma_regroup(b1.num, a1.den, b2.den, a2.den);
    lemma_regroup(a2.num, b2.den, a1.den, b1.den);
    lemma_regroup(b2.num, a2.den, b1.den, a1.den);
}

/// Subtraction respects the denoted rationals.
pub proof fn lemma_rat_sub_congruence(a1: Rat, a2: Rat, b1: Rat, b2: Rat)
    requires
        rat_wf(a1),
        rat_wf(a2),
        rat_wf(b1),
        rat_wf(b2),
        rat_eq(a1, a2),
        rat_eq(b1, b2),
    ensures
        rat_eq(rat_sub(a1, b1), rat_sub(a2, b2)),
{
    lemma_distribute(a1.num * b1.den, b1.num * a1.den, a2.den * b2.den);
    lemma_distribute(a2.num * b2.den, b2.num * a2.den, a1.den * b1.den);
    lemma_regroup(a1.num, b1.den, a2.den, b2.den);
    lemma_regroup(b1.num, a1.den, b2.den, a2.den);
    lemma_regroup(a2.num, b2.den, a1.den, b1.den);
    lemma_regroup(b2.num, a2.den, b1.den, a1.den);
}

/// Multiplication respects the denoted rationals.
pub proof fn lemma_rat_mul_congruence(a1: Rat, a2: Rat, b1: Rat, b2: Rat)
    requires
        rat_wf(a1),
        rat_wf(a2),
        rat_wf(b1),
        rat_wf(b2),
        rat_eq(a1, a2),
        rat_eq(b1, b2),
    ensures
        rat_eq(rat_mul(a1, b1), rat_mul(a2, b2)),
{
    assert((a1.num * b1.num) * (a2.den * b2.den) == (a1.num * a2.den) * (b1.num * b2.den))
        by (nonlinear_arith);
    assert((a2.num * b2.num) * (a1.den * b1.den) == (a2.num * a1.den) * (b2.num * b1.den))
        by (nonlinear_arith);
}

/// A successful checked addition denotes the exact sum: for well-formed
/// operands denoting `ae` and `be`, the result denotes `ae + be`.
pub proof fn lemma_add_c_exact(a: Rat, ae: Rat, b: Rat, be: Rat)
    requires
        rat_wf(a),
        rat_wf(ae),
        rat_wf(b),
        rat_wf(be),
        rat_eq(a, ae),
        rat_eq(b, be),
    ensures
        rat_wf(rat_add(ae, be)),
        add_c(a, b) matches Some(q) ==> rat_wf(q) && rat_eq(q, rat_add(ae, be)),
{
    lemma_rat_ops_wf(a, b);
    lemma_rat_ops_wf(ae, be);
    lemma_rat_norm_eq(rat_add(a, b));
    lemma_rat_add_congruence(a, ae, b, be);
    match add_c(a, b) {
        Some(q) => {
            lemma_rat_eq_trans(q, rat_add(a, b), rat_add(ae, be));
        },
        None => {},
    }
}

/// A successful checked subtraction denotes the exact difference.
pub proof fn lemma_sub_c_exact(a: Rat, ae: Rat, b: Rat, be: Rat)
    requires
        rat_wf(a),
        rat_wf(ae),
        rat_wf(b),
        rat_wf(be),
        rat_eq(a, ae),
        rat_eq(b, be),
    ensures
        rat_wf(rat_sub(ae, be)),
        sub_c(a, b) matches Some(q) ==> rat_wf(q) && rat_eq(q, rat_sub(ae, be)),
{
    lemma_rat_ops_wf(a, b);
    lemma_rat_ops_wf(ae, be);
    lemma_rat_norm_eq(rat_sub(a, b));
    lemma_rat_sub_congruence(a, ae, b, be);
    match sub_c(a, b) {
        Some(q) => {
            lemma_rat_eq_trans(q, rat_sub(a, b), rat_sub(ae, be));
        },
        None => {},
    }
}

/// A successful checked multiplication denotes the exact product.
pub proof fn lemma_mul_c_exact(a: Rat, ae: Rat, b: Rat, be: Rat)
    requires
        rat_wf(a),
        rat_wf(ae),
        rat_wf(b),
        rat_wf(be),
        rat_eq(a, ae),
        rat_eq(b, be),
    ensures
        rat_wf(rat_mul(ae, be)),
        mul_c(a, b) matches Some(q) ==> rat_wf(q) && rat_eq(q, rat_mul(ae, be)),
{
    lemma_rat_ops_wf(a, b);
    lemma_rat_ops_wf(ae, be);
    lemma_rat_norm_eq(rat_mul(a, b));
    lemma_rat_mul_congruence(a, ae, b, be);
    match mul_c(a, b) {
        Some(q) => {
            lemma_rat_eq_trans(q, rat_mul(a, b), rat_mul(ae, be));
        },
        None => {},
    }
}

/// Multiplying any scalar by zero gives canonical zero.
pub proof fn lemma_mul_c_zero(a: Rat)
    ensures
        mul_c(a, int_rat(0)) == Some(int_rat(0)),
        mul_c(int_rat(0), a) == Some(int_rat(0)),
{
    assert(rat_mul(a, int_rat(0)).num == 0);
    assert(rat_mul(int_rat(0), a).num == 0);
    assert(rat_norm(rat_mul(a, int_rat(0))) == int_rat(0));
    assert(rat_norm(rat_mul(int_rat(0), a)) == int_rat(0));
}

/// An executable rational scalar.
#[derive(Clone, Copy, Debug)]
pub struct Ratio {
    num: i64,
    den: i64,
}

impl View for Ratio {
    type V = Rat;

    closed spec fn view(&self) -> Rat {
        Rat { num: self.num as int, den: self.den as int }
    }
}

/// The model of an optional scalar.
pub open spec fn opt_rat(r: Option<Ratio>) -> Option<Rat> {
    match r {
        Some(q) => Some(q@),
        None => None,
    }
}

/// The models of a sequence of scalars.
pub open spec fn views(s: Seq<Ratio>) -> Seq<Rat> {
    s.map_values(|q: Ratio| q@)
}

/// Every scalar of the sequence is well-formed.
pub open spec fn all_wf(s: Seq<Ratio>) -> bool {
    forall|i: int| 0 <= i < s.len() ==> (#[trigger] s[i]).wf()
}

/// Every model of the sequence is well-formed.
pub open spec fn all_wf_rat(s: Seq<Rat>) -> bool {
    forall|i: int| 0 <= i < s.len() ==> rat_wf(#[trigger] s[i])
}

/// A well-formed prefix of a well-formed sequence.
pub proof fn lemma_all_wf_rat_drop_last(s: Seq<Rat>)
    requires
        s.len() > 0,
        all_wf_rat(s),
    ensures
        all_wf_rat(s.drop_last()),
{
    assert forall|i: int| 0 <= i < s.drop_last().len() implies rat_wf(
        #[trigger] s.drop_last()[i],
    ) by {
        assert(s.drop_last()[i] == s[i]);
    }
}

proof fn lemma_i64_product_bound(x: int, y: int)
    by (nonlinear_arith)
    requires
        -0x8000_0000_0000_0000 <= x <= 0x7fff_ffff_ffff_ffff,
        -0x8000_0000_0000_0000 <= y <= 0x7fff_ffff_ffff_ffff,
    ensures
        -0x4000_0000_0000_0000_0000_0000_0000_0000 <= x * y,
        x * y <= 0x4000_0000_0000_0000_0000_0000_0000_0000,
{
}

proof fn lemma_num_den_product_bound(x: int, d: int)
    by (nonlinear_arith)
    requires
        -0x8000_0000_0000_0000 <= x <= 0x7fff_ffff_ffff_ffff,
        1 <= d <= 0x7fff_ffff_ffff_ffff,
    ensures
        -0x3fff_ffff_ffff_ffff_8000_0000_0000_0000 <= x * d,
        x * d <= 0x3fff_ffff_ffff_ffff_8000_0000_0000_0000,
{
}

proof fn lemma_den_product_positive(d1: int, d2: int)
    by (nonlinear_arith)
    requires
        1 <= d1,
        1 <= d2,
    ensures
        1 <= d1 * d2,
{
}

/// Builds the normalized machine scalar for the exact value `n / d`, when
/// it fits.
fn build_checked(n: i128, d: i128) -> (r: Option<Ratio>)
    requires
        1 <= d,
    ensures
        opt_rat(r) == rat_checked(Rat { num: n as int, den: d as int }),
        r matches Some(q) ==> q.wf(),
{
    if n == 0 {
        Some(Ratio { num: 0, den: 1 })
    } else if (i64::MIN as i128) <= n && n <= (i64::MAX as i128) && d <= (i64::MAX as i128) {
        Some(Ratio { num: n as i64, den: d as i64 })
    } else {
        None
    }
}

impl Ratio {
    /// The denominator is positive.
    pub open spec fn wf(&self) -> bool {
        rat_wf(self@)
    }

    /// The scalar `num / den`.
    pub fn new(num: i64, den: i64) -> (r: Ratio)
        requires
            den >= 1,
        ensures
            r.wf(),
            r@ == (Rat { num: num as int, den: den as int }),
    {
        Ratio { num, den }
    }

    /// The integer scalar `n`.
    pub fn from_int(n: i64) -> (r: Ratio)
        ensures
            r.wf(),
            r@ == int_rat(n as int),
    {
        Ratio { num: n, den: 1 }
    }

    pub fn numerator(&self) -> (r: i64)
        ensures
            r as int == self@.num,
    {
        self.num
    }

    pub fn denominator(&self) -> (r: i64)
        ensures
            r as int == self@.den,
    {
        self.den
    }
}

/// Whether the two scalars denote the same rational.
pub fn ratio_eq(a: &Ratio, b: &Ratio) -> (r: bool)
    ensures
        r == rat_eq(a@, b@),
{
    proof {
        lemma_i64_product_bound(a.num as int, b.den as int);
        lemma_i64_product_bound(b.num as int, a.den as int);
    }
    (a.num as i128) * (b.den as i128) == (b.num as i128) * (a.den as i128)
}

/// Whether `a <= b` as rationals.
pub fn ratio_le(a: &Ratio, b: &Ratio) -> (r: bool)
    requires
        a.wf(),
        b.wf(),
    ensures
        r == rat_le(a@, b@),
{
    proof {
        lemma_i64_product_bound(a.num as int, b.den as int);
        lemma_i64_product_bound(b.num as int, a.den as int);
    }
    (a.num as i128) * (b.den as i128) <= (b.num as i128) * (a.den as i128)
}

/// Exact addition; reports nothing when the result leaves the machine range.
pub fn checked_add(a: &Ratio, b: &Ratio) -> (r: Option<Ratio>)
    requires
        a.wf(),
        b.wf(),
    ensures
        opt_rat(r) == add_c(a@, b@),
        r matches Some(q) ==> q.wf(),
{
    proof {
        lemma_num_den_product_bound(a.num as int, b.den as int);
        lemma_num_den_product_bound(b.num as int, a.den as int);
        lemma_num_den_product_bound(a.den as int, b.den as int);
        lemma_den_product_positive(a.den as int, b.den as int);
    }
    let n: i128 = (a.num as i128) * (b.den as i128) + (b.num as i128) * (a.den as i128);
    let d: i128 = (a.den as i128) * (b.den as i128);
    build_checked(n, d)
}

/// Exact subtraction; reports nothing when the result leaves the machine range.
pub fn checked_sub(a: &Ratio, b: &Ratio) -> (r: Option<Ratio>)
    requires
        a.wf(),
        b.wf(),
    ensures
        opt_rat(r) == sub_c(a@, b@),
        r matches Some(q) ==> q.wf(),
{
    proof {
        lemma_num_den_product_bound(a.num as int, b.den as int);
        lemma_num_den_product_bound(b.num as int, a.den as int);
        lemma_num_den_product_bound(a.den as int, b.den as int);
        lemma_den_product_positive(a.den as int, b.den as int);
    }
    let n: i128 = (a.num as i128) * (b.den as i128) - (b.num as i128) * (a.den as i128);
    let d: i128 = (a.den as i128) * (b.den as i128);
    build_checked(n, d)
}

/// Exact multiplication; reports nothing when the result leaves the machine range.
pub fn checked_mul(a: &Ratio, b: &Ratio) -> (r: Option<Ratio>)
    requires
        a.wf(),
        b.wf(),
    ensures
        opt_rat(r) == mul_c(a@, b@),
        r matches Some(q) ==> q.wf(),
{
    proof {
        lemma_i64_product_bound(a.num as int, b.num as int);
        lemma_num_den_product_bound(a.den as int, b.den as int);
        lemma_den_product_positive(a.den as int, b.den as int);
    }
    let n: i128 = (a.num as i128) * (b.num as i128);
    let d: i128 = (a.den as i128) * (b.den as i128);
    build_checked(n, d)
}

} // verus!
