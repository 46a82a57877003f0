//! Exact rational numbers with `i64` numerator and positive `i64` denominator.
//!
//! Every arithmetic operation computes the exact result in `i128` and then
//! divides numerator and denominator by their greatest common divisor, so the
//! stored pair is the canonical representative of the rational value.  Each
//! operation's contract states the exact resulting pair via the spec-level
//! mirror of the same computation.

use vstd::arithmetic::div_mod::{
    lemma_fundamental_div_mod, lemma_div_multiples_vanish, lemma_mod_multiples_basic,
    lemma_mod_self_0, lemma_small_mod,
};
use vstd::prelude::*;

verus! {

/// Mathematical value of a rational: the fraction `n / d`, with `d > 0`.
pub struct RatV {
    pub n: int,
    pub d: int,
}

/// Greatest common divisor of two non-negative integers (Euclid).
pub open spec fn gcd(a: int, b: int) -> int
    recommends
        0 <= a,
        0 <= b,
    decreases b when 0 <= b
{
    if b <= 0 {
        a
    } else {
        gcd(b, a % b)
    }
}

/// `x` fits the magnitude range of `i64` (the minimum value is excluded so
/// that negation always stays in range).
pub open spec fn fits_i64(x: int) -> bool {
    -0x7fff_ffff_ffff_ffff <= x <= 0x7fff_ffff_ffff_ffff
}

/// The pair can be stored in a `Rat`: numerator in range, denominator positive.
pub open spec fn rat_fits(r: RatV) -> bool {
    &&& fits_i64(r.n)
    &&& 0 < r.d <= 0x7fff_ffff_ffff_ffff
}

/// Absolute value.
pub open spec fn iabs(x: int) -> int {
    if x < 0 {
        -x
    } else {
        x
    }
}

/// Canonical representative: numerator and denominator divided by their gcd.
pub open spec fn rat_norm(r: RatV) -> RatV {
    let g = gcd(iabs(r.n), r.d);
    RatV { n: r.n / g, d: r.d / g }
}

/// The two pairs denote the same rational value (assuming positive denominators).
pub open spec fn rat_eq(a: RatV, b: RatV) -> bool {
    a.n * b.d == b.n * a.d
}

/// `a < b` as rationals (assuming positive denominators).
pub open spec fn rat_lt(a: RatV, b: RatV) -> bool {
    a.n * b.d < b.n * a.d
}

/// `a <= b` as rationals (assuming positive denominators).
pub open spec fn rat_le(a: RatV, b: RatV) -> bool {
    a.n * b.d <= b.n * a.d
}

/// Exact (unreduced) sum.
pub open spec fn rat_add_raw(a: RatV, b: RatV) -> RatV {
    RatV { n: a.n * b.d + b.n * a.d, d: a.d * b.d }
}

/// Exact (unreduced) difference.
pub open spec fn rat_sub_raw(a: RatV, b: RatV) -> RatV {
    RatV { n: a.n * b.d - b.n * a.d, d: a.d * b.d }
}

/// Exact (unreduced) product.
pub open spec fn rat_mul_raw(a: RatV, b: RatV) -> RatV {
    RatV { n: a.n * b.n, d: a.d * b.d }
}

/// Exact (unreduced) quotient, with the sign moved into the numerator so the
/// denominator stays positive.
pub open spec fn rat_div_raw(a: RatV, b: RatV) -> RatV {
    if b.n >= 0 {
        RatV { n: a.n * b.d, d: a.d * b.n }
    } else {
        RatV { n: -(a.n * b.d), d: -(a.d * b.n) }
    }
}

/// Sum, reduced to canonical form.
pub open spec fn rat_add(a: RatV, b: RatV) -> RatV {
    rat_norm(rat_add_raw(a, b))
}

/// Difference, reduced to canonical form.
pub open spec fn rat_sub(a: RatV, b: RatV) -> RatV {
    rat_norm(rat_sub_raw(a, b))
}

/// Product, reduced to canonical form.
pub open spec fn rat_mul(a: RatV, b: RatV) -> RatV {
    rat_norm(rat_mul_raw(a, b))
}

/// Quotient, reduced to canonical form.
pub open spec fn rat_div(a: RatV, b: RatV) -> RatV {
    rat_norm(rat_div_raw(a, b))
}

/// The smaller of the two values; on a tie the first argument is kept.
pub open spec fn rat_min(a: RatV, b: RatV) -> RatV {
    if rat_lt(b, a) {
        b
    } else {
        a
    }
}

/// The larger of the two values; on a tie the first argument is kept.
pub open spec fn rat_max(a: RatV, b: RatV) -> RatV {
    if rat_lt(a, b) {
        b
    } else {
        a
    }
}

/// Bounds on a product from bounds on its factors.
pub proof fn lemma_mul_bound(a: int, b: int, aa: int, bb: int)
    requires
        -aa <= a <= aa,
        -bb <= b <= bb,
    ensures
        -(aa * bb) <= a * b <= aa * bb,
{
    assert(-(aa * bb) <= a * b <= aa * bb) by (nonlinear_arith)
        requires
            -aa <= a <= aa,
            -bb <= b <= bb,
    ;
}

/// The gcd of two non-negative integers divides both, is positive when either
/// is, and is bounded by each positive argument.
pub proof fn lemma_gcd(a: int, b: int)
    requires
        0 <= a,
        0 <= b,
    ensures
        0 <= gcd(a, b),
        a > 0 || b > 0 ==> 1 <= gcd(a, b),
        1 <= gcd(a, b) ==> a % gcd(a, b) == 0,
        1 <= gcd(a, b) ==> b % gcd(a, b) == 0,
        a > 0 ==> gcd(a, b) <= a,
        b > 0 ==> gcd(a, b) <= b,
    decreases b,
{
    if b <= 0 {
        assert(gcd(a, b) == a);
        if a > 0 {
            lemma_mod_self_0(a);
            lemma_small_mod(0, a as nat);
        }
    } else {
        lemma_gcd(b, a % b);
        let g = gcd(b, a % b);
        assert(gcd(a, b) == g);
        lemma_fundamental_div_mod(a, b);
        lemma_fundamental_div_mod(b, g);
        lemma_fundamental_div_mod(a % b, g);
        let k = (b / g) * (a / b) + (a % b) / g;
        assert(a == g * k) by (nonlinear_arith)
            requires
                a == b * (a / b) + a % b,
                b == g * (b / g) + b % g,
                b % g == 0,
                a % b == g * ((a % b) / g) + (a % b) % g,
                (a % b) % g == 0,
                k == (b / g) * (a / b) + (a % b) / g,
        ;
        lemma_mod_multiples_basic(k, g);
        assert(k * g == g * k) by (nonlinear_arith);
        if a > 0 {
            // g divides a and a > 0, so g <= a.
            assert(g <= a) by (nonlinear_arith)
                requires
                    a == g * k,
                    a > 0,
                    g >= 1,
            ;
        }
    }
}

/// Exact division: if `g` divides `x`, the quotient times `g` gives back `x`,
/// and the quotient of `g * q` by `g` is `q` (also for negative values).
pub proof fn lemma_div_exact(q: int, g: int)
    requires
        0 < g,
    ensures
        (g * q) / g == q,
        (g * q) % g == 0,
{
    lemma_div_multiples_vanish(q, g);
    lemma_mod_multiples_basic(q, g);
    assert(q * g == g * q) by (nonlinear_arith);
}

/// Normalization keeps the value, keeps the denominator positive, and never
/// grows numerator magnitude or denominator.
pub proof fn lemma_rat_norm(r: RatV)
    requires
        r.d > 0,
    ensures
        0 < rat_norm(r).d <= r.d,
        iabs(rat_norm(r).n) <= iabs(r.n),
        rat_eq(rat_norm(r), r),
        rat_eq(r, rat_norm(r)),
        r.n == 0 ==> rat_norm(r).n == 0,
        r.n > 0 ==> rat_norm(r).n > 0,
        r.n < 0 ==> rat_norm(r).n < 0,
{
    let g = gcd(iabs(r.n), r.d);
    lemma_gcd(iabs(r.n), r.d);
    lemma_fundamental_div_mod(r.d, g);
    let dq = r.d / g;
    assert(r.d == g * dq);
    assert(dq > 0) by (nonlinear_arith)
        requires
            r.d == g * dq,
            r.d > 0,
            g >= 1,
    ;
    assert(dq <= r.d) by (nonlinear_arith)
        requires
            r.d == g * dq,
            dq > 0,
            g >= 1,
    ;
    let m = iabs(r.n);
    lemma_fundamental_div_mod(m, g);
    let mq = m / g;
    assert(m == g * mq);
    assert(mq >= 0) by (nonlinear_arith)
        requires
            m == g * mq,
            m >= 0,
            g >= 1,
    ;
    if r.n >= 0 {
        assert(r.n / g == mq);
        assert(mq * (g * dq) == (g * mq) * dq) by (nonlinear_arith);
        assert(mq <= g * mq) by (nonlinear_arith)
            requires
                g >= 1,
                mq >= 0,
        ;
        if r.n > 0 {
            assert(mq > 0) by (nonlinear_arith)
                requires
                    r.n == g * mq,
                    r.n > 0,
                    g >= 1,
            ;
        }
    } else {
        // r.n == -m, and g divides m exactly.
        lemma_div_exact(-mq, g);
        assert(g * (-mq) == -(g * mq)) by (nonlinear_arith);
        assert(r.n / g == -mq);
        assert((-mq) * (g * dq) == (g * (-mq)) * dq) by (nonlinear_arith);
        assert(mq > 0) by (nonlinear_arith)
            requires
                -r.n == g * mq,
                r.n < 0,
                g >= 1,
        ;
        assert(mq <= g * mq) by (nonlinear_arith)
            requires
                g >= 1,
                mq >= 0,
        ;
    }
}

/// The reduced form of a raw pair fits `i64` whenever the raw pair itself does.
pub proof fn lemma_fits_from_raw(r: RatV)
    requires
        0 < r.d <= 0x7fff_ffff_ffff_ffff,
        fits_i64(r.n),
    ensures
        rat_fits(rat_norm(r)),
{
    lemma_rat_norm(r);
}

/// The raw difference of two well-formed pairs has a positive denominator,
/// and it is zero exactly when the two are equal as rationals; the reduced
/// difference keeps that.
pub proof fn lemma_sub_nonzero(a: RatV, b: RatV)
    requires
        a.d > 0,
        b.d > 0,
        !rat_eq(b, a),
    ensures
        rat_sub_raw(a, b).d > 0,
        rat_sub(a, b).n != 0,
        rat_sub(a, b).d > 0,
{
    assert(a.d * b.d > 0) by (nonlinear_arith)
        requires
            a.d > 0,
            b.d > 0,
    ;
    lemma_rat_norm(rat_sub_raw(a, b));
}

/// The quotient of a non-zero rational by a non-zero rational is non-zero.
pub proof fn lemma_div_nonzero(a: RatV, b: RatV)
    requires
        a.d > 0,
        b.d > 0,
        a.n != 0,
        b.n != 0,
    ensures
        rat_div_raw(a, b).d > 0,
        rat_div(a, b).n != 0,
        rat_div(a, b).d > 0,
{
    if b.n >= 0 {
        assert(a.d * b.n > 0) by (nonlinear_arith)
            requires
                a.d > 0,
                b.n > 0,
        ;
        assert(a.n * b.d != 0) by (nonlinear_arith)
            requires
                a.n != 0,
                b.d > 0,
        ;
    } else {
        assert(a.d * b.n < 0) by (nonlinear_arith)
            requires
                a.d > 0,
                b.n < 0,
        ;
        assert(a.n * b.d != 0) by (nonlinear_arith)
            requires
                a.n != 0,
                b.d > 0,
        ;
    }
    lemma_rat_norm(rat_div_raw(a, b));
}

/// A rational number: the value `n / d`, held in canonical (reduced) form by
/// every operation of this module.  Well-formedness (`wf`) asks only that the
/// denominator is positive and the numerator is not `i64::MIN`.
#[derive(Clone, Copy, Debug, PartialEq, Eq, Structural)]
pub struct Rat {
    pub n: i64,
    pub d: i64,
}

impl View for Rat {
    type V = RatV;

    open spec fn view(&self) -> RatV {
        RatV { n: self.n as int, d: self.d as int }
    }
}

/// Euclid's algorithm on unsigned 128-bit integers.
fn gcd_u128(a: u128, b: u128) -> (g: u128)
    ensures
        g as int == gcd(a as int, b as int),
    decreases b,
{
    if b == 0 {
        a
    } else {
        gcd_u128(b, a % b)
    }
}

impl Rat {
    /// The denominator is positive and negation of the numerator stays in range.
    pub open spec fn wf(self) -> bool {
        rat_fits(self@)
    }

    /// Build the canonical rational with value `n / d`.
    pub fn new(n: i64, d: i64) -> (r: Rat)
        requires
            0 < d,
            -0x7fff_ffff_ffff_ffff <= n,
        ensures
            r.wf(),
            r@ == rat_norm(RatV { n: n as int, d: d as int }),
    {
        proof {
            lemma_rat_norm(RatV { n: n as int, d: d as int });
        }
        norm128(n as i128, d as i128)
    }

    /// The integer `n` as a rational.
    pub fn from_int(n: i64) -> (r: Rat)
        requires
            -0x7fff_ffff_ffff_ffff <= n,
        ensures
            r.wf(),
            r@ == (RatV { n: n as int, d: 1 }),
    {
        Rat { n, d: 1 }
    }

    /// Exact sum.
    pub fn plus(self, other: Rat) -> (r: Rat)
        requires
            self.wf(),
            other.wf(),
            rat_fits(rat_add(self@, other@)),
        ensures
            r.wf(),
            r@ == rat_add(self@, other@),
    {
        proof {
            lemma_mul_bound(self.n as int, other.d as int, 0x7fff_ffff_ffff_ffff, 0x7fff_ffff_ffff_ffff);
            lemma_mul_bound(other.n as int, self.d as int, 0x7fff_ffff_ffff_ffff, 0x7fff_ffff_ffff_ffff);
            lemma_mul_bound(self.d as int, other.d as int, 0x7fff_ffff_ffff_ffff, 0x7fff_ffff_ffff_ffff);
            assert(self.d as int * other.d as int > 0) by (nonlinear_arith)
                requires
                    self.d > 0,
                    other.d > 0,
            ;
        }
        let n: i128 = self.n as i128 * other.d as i128 + other.n as i128 * self.d as i128;
        let d: i128 = self.d as i128 * other.d as i128;
        norm128(n, d)
    }

    /// Exact difference.
    pub fn minus(self, other: Rat) -> (r: Rat)
        requires
            self.wf(),
            other.wf(),
            rat_fits(rat_sub(self@, other@)),
        ensures
            r.wf(),
            r@ == rat_sub(self@, other@),
    {
        proof {
            lemma_mul_bound(self.n as int, other.d as int, 0x7fff_ffff_ffff_ffff, 0x7fff_ffff_ffff_ffff);
            lemma_mul_bound(other.n as int, self.d as int, 0x7fff_ffff_ffff_ffff, 0x7fff_ffff_ffff_ffff);
            lemma_mul_bound(self.d as int, other.d as int, 0x7fff_ffff_ffff_ffff, 0x7fff_ffff_ffff_ffff);
            assert(self.d as int * other.d as int > 0) by (nonlinear_arith)
                requires
                    self.d > 0,
                    other.d > 0,
            ;
        }
        let n: i128 = self.n as i128 * other.d as i128 - other.n as i128 * self.d as i128;
        let d: i128 = self.d as i128 * other.d as i128;
        norm128(n, d)
    }

    /// Exact product.
    pub fn times(self, other: Rat) -> (r: Rat)
        requires
            self.wf(),
            other.wf(),
            rat_fits(rat_mul(self@, other@)),
        ensures
            r.wf(),
            r@ == rat_mul(self@, other@),
    {
        proof {
            lemma_mul_bound(self.n as int, other.n as int, 0x7fff_ffff_ffff_ffff, 0x7fff_ffff_ffff_ffff);
            lemma_mul_bound(self.d as int, other.d as int, 0x7fff_ffff_ffff_ffff, 0x7fff_ffff_ffff_ffff);
            assert(self.d as int * other.d as int > 0) by (nonlinear_arith)
                requires
                    self.d > 0,
                    other.d > 0,
            ;
        }
        let n: i128 = self.n as i128 * other.n as i128;
        let d: i128 = self.d as i128 * other.d as i128;
        norm128(n, d)
    }

    /// Exact quotient; the divisor must be non-zero.
    pub fn div_by(self, other: Rat) -> (r: Rat)
        requires
            self.wf(),
            other.wf(),
            other@.n != 0,
            rat_fits(rat_div(self@, other@)),
        ensures
            r.wf(),
            r@ == rat_div(self@, other@),
    {
        proof {
            lemma_mul_bound(self.n as int, other.d as int, 0x7fff_ffff_ffff_ffff, 0x7fff_ffff_ffff_ffff);
            lemma_mul_bound(self.d as int, other.n as int, 0x7fff_ffff_ffff_ffff, 0x7fff_ffff_ffff_ffff);
        }
        let n: i128 = self.n as i128 * other.d as i128;
        let d: i128 = self.d as i128 * other.n as i128;
        if other.n >= 0 {
            proof {
                assert(self.d as int * other.n as int > 0) by (nonlinear_arith)
                    requires
                        self.d > 0,
                        other.n > 0,
                ;
            }
            norm128(n, d)
        } else {
            proof {
                assert((self.d as int) * (other.n as int) < 0) by (nonlinear_arith)
                    requires
                        self.d > 0,
                        other.n < 0,
                ;
            }
            norm128(-n, -d)
        }
    }

    /// Exact comparison.
    pub fn lt(self, other: Rat) -> (r: bool)
        requires
            self.wf(),
            other.wf(),
        ensures
            r == rat_lt(self@, other@),
    {
        proof {
            lemma_mul_bound(self.n as int, other.d as int, 0x7fff_ffff_ffff_ffff, 0x7fff_ffff_ffff_ffff);
            lemma_mul_bound(other.n as int, self.d as int, 0x7fff_ffff_ffff_ffff, 0x7fff_ffff_ffff_ffff);
        }
        (self.n as i128) * (other.d as i128) < (other.n as i128) * (self.d as i128)
    }

    /// The smaller value (the receiver on a tie).
    pub fn min_with(self, other: Rat) -> (r: Rat)
        requires
            self.wf(),
            other.wf(),
        ensures
            r.wf(),
            r@ == rat_min(self@, other@),
    {
        if other.lt(self) {
            other
        } else {
            self
        }
    }

    /// The larger value (the receiver on a tie).
    pub fn max_with(self, other: Rat) -> (r: Rat)
        requires
            self.wf(),
            other.wf(),
        ensures
            r.wf(),
            r@ == rat_max(self@, other@),
    {
        if self.lt(other) {
            other
        } else {
            self
        }
    }
}

/// Reduce the exact pair `n / d` by its gcd and store it as a `Rat`.
fn norm128(n: i128, d: i128) -> (r: Rat)
    requires
        0 < d <= 0x7fff_ffff_ffff_ffff_ffff_ffff_ffff_ffff,
        -0x7fff_ffff_ffff_ffff_ffff_ffff_ffff_ffff <= n <= 0x7fff_ffff_ffff_ffff_ffff_ffff_ffff_ffff,
        rat_fits(rat_norm(RatV { n: n as int, d: d as int })),
    ensures
        r.wf(),
        r@ == rat_norm(RatV { n: n as int, d: d as int }),
{
    let ghost rv = RatV { n: n as int, d: d as int };
    proof {
        lemma_rat_norm(rv);
    }
    let neg = n < 0;
    let mag: u128 = if neg {
        (-n) as u128
    } else {
        n as u128
    };
    let du: u128 = d as u128;
    let g: u128 = gcd_u128(mag, du);
    proof {
        lemma_gcd(mag as int, du as int);
        lemma_fundamental_div_mod(mag as int, g as int);
        lemma_fundamental_div_mod(du as int, g as int);
    }
    let qm: u128 = mag / g;
    let qd: u128 = du / g;
    proof {
        let gi = g as int;
        assert(gi == gcd(iabs(rv.n), rv.d));
        if neg {
            // rv.n / gi == -(mag / gi): gi divides mag exactly.
            lemma_div_exact(-(mag as int / gi), gi);
            assert(gi * (-(mag as int / gi)) == -(gi * (mag as int / gi))) by (nonlinear_arith);
        }
    }
    if neg {
        Rat { n: -(qm as i64), d: qd as i64 }
    } else {
        Rat { n: qm as i64, d: qd as i64 }
    }
}

} // verus!
