//! Exact rational scalars.
//!
//! Process values, gains and control outputs are quotients of two
//! machine integers. Arithmetic is exact: every operation computes the
//! textbook fraction in wide intermediates and reports, instead of a
//! rounded value, whether the result still fits the representation.

use vstd::prelude::*;
use vstd::arithmetic::div_mod::{
    lemma_fundamental_div_mod, lemma_mod_multiples_basic, lemma_mod_self_0, lemma_small_mod,
};

verus! {

/// Mathematical value of a scalar: an unbounded numerator over an
/// unbounded positive denominator.
pub ghost struct RatModel {
    pub num: int,
    pub den: int,
}

/// The fraction `a + b`, on models.
pub open spec fn radd(a: RatModel, b: RatModel) -> RatModel {
    RatModel { num: a.num * b.den + b.num * a.den, den: a.den * b.den }
}

/// The fraction `a - b`, on models.
pub open spec fn rsub(a: RatModel, b: RatModel) -> RatModel {
    RatModel { num: a.num * b.den - b.num * a.den, den: a.den * b.den }
}

/// The fraction `a * b`, on models.
pub open spec fn rmul(a: RatModel, b: RatModel) -> RatModel {
    RatModel { num: a.num * b.num, den: a.den * b.den }
}

/// The fraction `a / b`, on models, with the sign kept in the
/// numerator. Division by a zero numerator yields a zero denominator,
/// which no representable scalar has.
pub open spec fn rdiv(a: RatModel, b: RatModel) -> RatModel {
    if b.num >= 0 {
        RatModel { num: a.num * b.den, den: a.den * b.num }
    } else {
        RatModel { num: -(a.num * b.den), den: -(a.den * b.num) }
    }
}

/// Two models denote the same rational number.
pub open spec fn rat_eqv(a: RatModel, b: RatModel) -> bool {
    a.num * b.den == b.num * a.den
}

/// The model can be carried by a `Rat`: numerator in `i64` range and a
/// positive denominator in `i64` range.
pub open spec fn rfits(m: RatModel) -> bool {
    i64::MIN <= m.num <= i64::MAX && 0 < m.den <= i64::MAX
}

/// Greatest common divisor, by Euclid's rule.
pub open spec fn gcd(a: nat, b: nat) -> nat
    decreases b,
{
    if b == 0 {
        a
    } else {
        gcd(b, a % b)
    }
}

/// With a positive second argument, the divisor is positive and no
/// larger than that argument.
pub proof fn lemma_gcd_pos_le(a: nat, b: nat)
    requires
        b > 0,
    ensures
        0 < gcd(a, b) <= b,
    decreases b,
{
    assert(gcd(a, b) == gcd(b, a % b));
    if a % b == 0 {
        assert(gcd(b, 0) == b);
    } else {
        lemma_gcd_pos_le(b, a % b);
    }
}

/// The divisor divides both arguments.
pub proof fn lemma_gcd_divides(a: nat, b: nat)
    requires
        a + b > 0,
    ensures
        gcd(a, b) > 0,
        a % gcd(a, b) == 0,
        b % gcd(a, b) == 0,
    decreases b,
{
    if b == 0 {
        assert(gcd(a, b) == a);
        lemma_mod_self_0(a as int);
        lemma_small_mod(0, a);
    } else {
        let g = gcd(b, a % b);
        assert(gcd(a, b) == g);
        lemma_gcd_divides(b, a % b);
        lemma_fundamental_div_mod(a as int, b as int);
        lemma_fundamental_div_mod(b as int, g as int);
        lemma_fundamental_div_mod((a % b) as int, g as int);
        let qa = a as int / b as int;
        let qb = b as int / g as int;
        let qr = (a % b) as int / g as int;
        assert(a as int == (qb * qa + qr) * (g as int)) by (nonlinear_arith)
            requires
                a as int == (b as int) * qa + (a % b) as int,
                b as int == (g as int) * qb,
                (a % b) as int == (g as int) * qr,
        {};
        lemma_mod_multiples_basic(qb * qa + qr, g as int);
    }
}

/// Cancelling the greatest common divisor does not change the denoted
/// rational number.
pub proof fn lemma_reduced_ratio_eqv(n: nat, d: nat)
    requires
        d > 0,
    ensures
        ({
            let g = gcd(n, d);
            rat_eqv(
                RatModel { num: (n / g) as int, den: (d / g) as int },
                RatModel { num: n as int, den: d as int },
            )
        }),
{
    let g = gcd(n, d);
    lemma_gcd_divides(n, d);
    lemma_fundamental_div_mod(n as int, g as int);
    lemma_fundamental_div_mod(d as int, g as int);
    let qn = n as int / g as int;
    let qd = d as int / g as int;
    assert(qn * (d as int) == (n as int) * qd) by (nonlinear_arith)
        requires
            n as int == (g as int) * qn,
            d as int == (g as int) * qd,
    {};
}

/// Euclid's algorithm.
pub fn gcd_u64(a: u64, b: u64) -> (g: u64)
    ensures
        g == gcd(a as nat, b as nat),
{
    let mut x = a;
    let mut y = b;
    while y != 0
        invariant
            gcd(x as nat, y as nat) == gcd(a as nat, b as nat),
        decreases y,
    {
        let r = x % y;
        x = y;
        y = r;
    }
    x
}

/// An exact rational scalar: `num / den`.
///
/// Well-formed values keep `den` positive; the constructors establish
/// that and every operation preserves it.
#[derive(Clone, Copy, Debug)]
pub struct Rat {
    pub num: i64,
    pub den: i64,
}

impl View for Rat {
    type V = RatModel;

    open spec fn view(&self) -> RatModel {
        RatModel { num: self.num as int, den: self.den as int }
    }
}

/// The product of two values bounded in magnitude is bounded by the
/// product of the bounds.
#[verifier::nonlinear]
proof fn lemma_mul_abs_bound(x: int, y: int, bx: int, by: int)
    requires
        0 <= bx,
        0 <= by,
        -bx <= x <= bx,
        -by <= y <= by,
    ensures
        -(bx * by) <= x * y <= bx * by,
{
}

/// The product of two positive integers is positive.
#[verifier::nonlinear]
proof fn lemma_mul_pos(x: int, y: int)
    requires
        0 < x,
        0 < y,
    ensures
        0 < x * y,
{
}

/// The sign of a product with a positive left factor follows the sign
/// of the right factor.
#[verifier::nonlinear]
proof fn lemma_mul_sign(x: int, y: int)
    requires
        0 < x,
    ensures
        y > 0 ==> x * y > 0,
        y == 0 ==> x * y == 0,
        y < 0 ==> x * y < 0,
{
}

/// Magnitude bound on the product of an `i64` numerator and a
/// well-formed `i64` denominator.
proof fn lemma_num_den_prod_bound(x: int, y: int)
    requires
        i64::MIN <= x <= i64::MAX,
        0 < y <= i64::MAX,
    ensures
        -0x3fffffffffffffff8000000000000000 <= x * y
            <= 0x3fffffffffffffff8000000000000000,
{
    lemma_mul_abs_bound(x, y, 0x8000000000000000, 0x7fffffffffffffff);
}

impl Rat {
    /// The denominator is positive, so the value is a genuine rational.
    pub open spec fn wf(self) -> bool {
        self.den > 0
    }

    /// The whole number `n`.
    pub fn from_int(n: i64) -> (r: Rat)
        ensures
            r.wf(),
            r@ == (RatModel { num: n as int, den: 1 }),
    {
        Rat { num: n, den: 1 }
    }

    /// The fraction `num / den`.
    pub fn new(num: i64, den: i64) -> (r: Rat)
        requires
            den > 0,
        ensures
            r.wf(),
            r@ == (RatModel { num: num as int, den: den as int }),
    {
        Rat { num, den }
    }

    /// Zero.
    pub fn zero() -> (r: Rat)
        ensures
            r.wf(),
            r@ == (RatModel { num: 0, den: 1 }),
    {
        Rat { num: 0, den: 1 }
    }

    /// Whether this value is the rational number zero.
    pub fn is_zero(&self) -> (r: bool)
        requires
            self.wf(),
        ensures
            r == (self@.num == 0),
    {
        self.num == 0
    }

    /// Whether `self` and `other` denote the same rational number.
    pub fn eqv(&self, other: &Rat) -> (r: bool)
        requires
            self.wf(),
            other.wf(),
        ensures
            r == rat_eqv(self@, other@),
    {
        proof {
            lemma_num_den_prod_bound(self.num as int, other.den as int);
            lemma_num_den_prod_bound(other.num as int, self.den as int);
        }
        (self.num as i128) * (other.den as i128)
            == (other.num as i128) * (self.den as i128)
    }

    /// Exact sum; `None` when the result leaves the representable range.
    pub fn checked_add(self, other: Rat) -> (r: Option<Rat>)
        requires
            self.wf(),
            other.wf(),
        ensures
            r is Some <==> rfits(radd(self@, other@)),
            r matches Some(c) ==> c.wf() && c@ == radd(self@, other@),
    {
        proof {
            lemma_num_den_prod_bound(self.num as int, other.den as int);
            lemma_num_den_prod_bound(other.num as int, self.den as int);
            lemma_num_den_prod_bound(self.den as int, other.den as int);
            lemma_mul_pos(self.den as int, other.den as int);
        }
        let n1: i128 = (self.num as i128) * (other.den as i128);
        let n2: i128 = (other.num as i128) * (self.den as i128);
        let n: i128 = n1 + n2;
        let d: i128 = (self.den as i128) * (other.den as i128);
        if n >= (i64::MIN as i128) && n <= (i64::MAX as i128) && d <= (i64::MAX as i128) {
            Some(Rat { num: n as i64, den: d as i64 })
        } else {
            None
        }
    }

    /// Exact difference; `None` when the result leaves the
    /// representable range.
    pub fn checked_sub(self, other: Rat) -> (r: Option<Rat>)
        requires
            self.wf(),
            other.wf(),
        ensures
            r is Some <==> rfits(rsub(self@, other@)),
            r matches Some(c) ==> c.wf() && c@ == rsub(self@, other@),
    {
        proof {
            lemma_num_den_prod_bound(self.num as int, other.den as int);
            lemma_num_den_prod_bound(other.num as int, self.den as int);
            lemma_num_den_prod_bound(self.den as int, other.den as int);
            lemma_mul_pos(self.den as int, other.den as int);
        }
        let n1: i128 = (self.num as i128) * (other.den as i128);
        let n2: i128 = (other.num as i128) * (self.den as i128);
        let n: i128 = n1 - n2;
        let d: i128 = (self.den as i128) * (other.den as i128);
        if n >= (i64::MIN as i128) && n <= (i64::MAX as i128) && d <= (i64::MAX as i128) {
            Some(Rat { num: n as i64, den: d as i64 })
        } else {
            None
        }
    }

    /// Exact product; `None` when the result leaves the representable
    /// range.
    pub fn checked_mul(self, other: Rat) -> (r: Option<Rat>)
        requires
            self.wf(),
            other.wf(),
        ensures
            r is Some <==> rfits(rmul(self@, other@)),
            r matches Some(c) ==> c.wf() && c@ == rmul(self@, other@),
    {
        proof {
            lemma_mul_abs_bound(
                self.num as int,
                other.num as int,
                0x8000000000000000,
                0x8000000000000000,
            );
            lemma_num_den_prod_bound(self.den as int, other.den as int);
            lemma_mul_pos(self.den as int, other.den as int);
        }
        let n: i128 = (self.num as i128) * (other.num as i128);
        let d: i128 = (self.den as i128) * (other.den as i128);
        if n >= (i64::MIN as i128) && n <= (i64::MAX as i128) && d <= (i64::MAX as i128) {
            Some(Rat { num: n as i64, den: d as i64 })
        } else {
            None
        }
    }

    /// Exact quotient; `None` when `other` is zero or the result leaves
    /// the representable range.
    pub fn checked_div(self, other: Rat) -> (r: Option<Rat>)
        requires
            self.wf(),
            other.wf(),
        ensures
            r is Some <==> rfits(rdiv(self@, other@)),
            r matches Some(c) ==> c.wf() && c@ == rdiv(self@, other@),
    {
        proof {
            lemma_num_den_prod_bound(self.num as int, other.den as int);
            lemma_mul_abs_bound(
                self.den as int,
                other.num as int,
                0x7fffffffffffffff,
                0x8000000000000000,
            );
            lemma_mul_sign(self.den as int, other.num as int);
        }
        let mut n: i128 = (self.num as i128) * (other.den as i128);
        let mut d: i128 = (self.den as i128) * (other.num as i128);
        if d < 0 {
            n = -n;
            d = -d;
        }
        if n >= (i64::MIN as i128) && n <= (i64::MAX as i128) && d >= 1 && d <= (i64::MAX as i128) {
            Some(Rat { num: n as i64, den: d as i64 })
        } else {
            None
        }
    }
}

} // verus!
