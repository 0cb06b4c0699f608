//! Exact rational scalars.
//!
//! Every physical quantity in this crate (mass, coordinate, inertia, velocity)
//! is an exact rational number: an `i64` numerator over a positive `i64`
//! denominator. The mathematical model of a value is [`Rat`], an integer pair,
//! and value equality is cross-multiplication ([`rat_eq`]).
//!
//! Executable arithmetic computes the exact result in `i128` (never
//! overflowing for `i64` operands), reduces it by the greatest common divisor,
//! and narrows it back to `i64`. An operation returns `None` exactly when the
//! reduced result does not fit; the spec-level mirror of this behaviour is
//! [`q_norm`] and the `q*` functions, which the contracts use verbatim.

use vstd::arithmetic::div_mod::{
    lemma_fundamental_div_mod, lemma_mod_multiples_basic, lemma_mod_self_0, lemma_small_mod,
};
use vstd::prelude::*;

verus! {

/// Mathematical rational number: numerator `n` over denominator `d`.
/// Well-formed values have `d > 0`; see [`rat_wf`].
pub struct Rat {
    pub n: int,
    pub d: int,
}

pub open spec fn rat_wf(a: Rat) -> bool {
    a.d > 0
}

/// Value equality by cross-multiplication: `a.n / a.d == b.n / b.d`.
pub open spec fn rat_eq(a: Rat, b: Rat) -> bool {
    a.n * b.d == b.n * a.d
}

/// `a <= b`, for well-formed operands.
pub open spec fn rat_le(a: Rat, b: Rat) -> bool {
    a.n * b.d <= b.n * a.d
}

/// `a < b`, for well-formed operands.
pub open spec fn rat_lt(a: Rat, b: Rat) -> bool {
    a.n * b.d < b.n * a.d
}

pub open spec fn rat_add(a: Rat, b: Rat) -> Rat {
    Rat { n: a.n * b.d + b.n * a.d, d: a.d * b.d }
}

pub open spec fn rat_sub(a: Rat, b: Rat) -> Rat {
    Rat { n: a.n * b.d - b.n * a.d, d: a.d * b.d }
}

pub open spec fn rat_mul(a: Rat, b: Rat) -> Rat {
    Rat { n: a.n * b.n, d: a.d * b.d }
}

/// Exact quotient; meaningful only when `b.n != 0`. The sign of `b.n` is moved
/// into the numerator so that the denominator stays positive.
pub open spec fn rat_div(a: Rat, b: Rat) -> Rat {
    if b.n >= 0 {
        Rat { n: a.n * b.d, d: a.d * b.n }
    } else {
        Rat { n: -(a.n * b.d), d: -(a.d * b.n) }
    }
}

pub open spec fn rat_neg(a: Rat) -> Rat {
    Rat { n: -a.n, d: a.d }
}

pub open spec fn rat_int(i: int) -> Rat {
    Rat { n: i, d: 1 }
}

/// `1 / a` when `a > 0`, otherwise `0`: the cached-inverse convention for
/// masses and inertias, where an inverse of zero stands for an infinite value.
pub open spec fn rat_recip_or_zero(a: Rat) -> Rat {
    if a.n > 0 {
        Rat { n: a.d, d: a.n }
    } else {
        rat_int(0)
    }
}

/// The small threshold guarding the center-of-mass division on removal:
/// `2^-23`, the machine epsilon of a single-precision float.
pub open spec fn rat_eps() -> Rat {
    Rat { n: 1, d: 8388608 }
}

pub open spec fn iabs(x: int) -> int {
    if x < 0 {
        -x
    } else {
        x
    }
}

/// Euclid's greatest common divisor.
pub open spec fn gcd(a: nat, b: nat) -> nat
    decreases b,
{
    if b == 0 {
        a
    } else {
        gcd(b, a % b)
    }
}

/// The gcd of two naturals, not both zero, is positive and divides both.
pub proof fn lemma_gcd_divides(a: nat, b: nat)
    requires
        a > 0 || b > 0,
    ensures
        gcd(a, b) > 0,
        (a as int) % (gcd(a, b) as int) == 0,
        (b as int) % (gcd(a, b) as int) == 0,
    decreases b,
{
    let g = gcd(a, b) as int;
    if b == 0 {
        lemma_mod_self_0(a as int);
        assert(0int % (a as int) == 0) by {
            lemma_small_mod(0, a);
        };
    } else {
        lemma_gcd_divides(b, a % b);
        let g2 = gcd(b, a % b) as int;
        assert(g == g2);
        lemma_fundamental_div_mod(a as int, b as int);
        lemma_fundamental_div_mod(b as int, g2);
        lemma_fundamental_div_mod((a % b) as int, g2);
        let q = a as int / b as int;
        let kb = b as int / g2;
        let kr = (a % b) as int / g2;
        assert(a as int == g2 * (q * kb + kr)) by (nonlinear_arith)
            requires
                a as int == b as int * q + (a % b) as int,
                b as int == g2 * kb,
                (a % b) as int == g2 * kr,
        ;
        lemma_mod_multiples_basic(q * kb + kr, g2);
        assert((g2 * (q * kb + kr)) % g2 == 0) by {
            assert(g2 * (q * kb + kr) == (q * kb + kr) * g2) by (nonlinear_arith);
        };
    }
}

/// `a` reduced to lowest terms, with the sign kept on the numerator.
pub open spec fn rat_norm(a: Rat) -> Rat {
    let g = gcd(iabs(a.n) as nat, a.d as nat) as int;
    if a.n < 0 {
        Rat { n: -(iabs(a.n) / g), d: a.d / g }
    } else {
        Rat { n: a.n / g, d: a.d / g }
    }
}

/// Reduction keeps the value, the sign, and never grows numerator or
/// denominator.
pub proof fn lemma_rat_norm(a: Rat)
    requires
        rat_wf(a),
    ensures
        rat_wf(rat_norm(a)),
        rat_eq(rat_norm(a), a),
        iabs(rat_norm(a).n) <= iabs(a.n),
        rat_norm(a).d <= a.d,
        rat_norm(a).n > 0 <==> a.n > 0,
        rat_norm(a).n < 0 <==> a.n < 0,
{
    let u = iabs(a.n);
    let g = gcd(u as nat, a.d as nat) as int;
    lemma_gcd_divides(u as nat, a.d as nat);
    lemma_fundamental_div_mod(u, g);
    lemma_fundamental_div_mod(a.d, g);
    let ku = u / g;
    let kd = a.d / g;
    assert(u == g * ku && a.d == g * kd);
    assert(kd > 0) by (nonlinear_arith)
        requires
            a.d == g * kd,
            a.d > 0,
            g > 0,
    ;
    assert(ku >= 0) by (nonlinear_arith)
        requires
            u == g * ku,
            u >= 0,
            g > 0,
    ;
    assert(ku * a.d == u * kd) by (nonlinear_arith)
        requires
            u == g * ku,
            a.d == g * kd,
    ;
    assert(ku <= u) by (nonlinear_arith)
        requires
            u == g * ku,
            g >= 1,
            ku >= 0,
    ;
    assert(kd <= a.d) by (nonlinear_arith)
        requires
            a.d == g * kd,
            g >= 1,
            kd > 0,
    ;
    assert(ku > 0 <==> u > 0) by (nonlinear_arith)
        requires
            u == g * ku,
            g > 0,
            ku >= 0,
    ;
    if a.n < 0 {
        assert(rat_eq(rat_norm(a), a)) by {
            assert((-ku) * a.d == a.n * kd) by (nonlinear_arith)
                requires
                    ku * a.d == u * kd,
                    u == -a.n,
            ;
        };
    }
}

/// The representable range of one [`Ratio`]: numerator in
/// `[-i64::MAX, i64::MAX]`, denominator in `[1, i64::MAX]`.
pub open spec fn in_i64(a: Rat) -> bool {
    &&& -(i64::MAX as int) <= a.n <= i64::MAX as int
    &&& 1 <= a.d <= i64::MAX as int
}

/// What one arithmetic step computes: the exact result reduced to lowest
/// terms, or `None` when that does not fit the representation.
pub open spec fn q_norm(a: Rat) -> Option<Rat> {
    let r = rat_norm(a);
    if in_i64(r) {
        Some(r)
    } else {
        None
    }
}

pub open spec fn qadd(a: Option<Rat>, b: Option<Rat>) -> Option<Rat> {
    match (a, b) {
        (Some(x), Some(y)) => q_norm(rat_add(x, y)),
        _ => None,
    }
}

pub open spec fn qsub(a: Option<Rat>, b: Option<Rat>) -> Option<Rat> {
    match (a, b) {
        (Some(x), Some(y)) => q_norm(rat_sub(x, y)),
        _ => None,
    }
}

pub open spec fn qmul(a: Option<Rat>, b: Option<Rat>) -> Option<Rat> {
    match (a, b) {
        (Some(x), Some(y)) => q_norm(rat_mul(x, y)),
        _ => None,
    }
}

pub open spec fn qdiv(a: Option<Rat>, b: Option<Rat>) -> Option<Rat> {
    match (a, b) {
        (Some(x), Some(y)) => {
            if y.n == 0 {
                None
            } else {
                q_norm(rat_div(x, y))
            }
        },
        _ => None,
    }
}

/// `max(a - b, 0)`, as the mass-removal operation computes it: the sign is
/// decided on the exact difference, so clamping to zero never fails.
pub open spec fn q_sub_clamped(a: Option<Rat>, b: Option<Rat>) -> Option<Rat> {
    match (a, b) {
        (Some(x), Some(y)) => {
            let raw = rat_sub(x, y);
            if raw.n < 0 {
                Some(rat_int(0))
            } else {
                q_norm(raw)
            }
        },
        _ => None,
    }
}

/// An exact rational scalar: `n / d` with `d > 0`.
#[derive(Clone, Copy, PartialEq, Eq, Structural, Debug)]
pub struct Ratio {
    pub n: i64,
    pub d: i64,
}

impl View for Ratio {
    type V = Rat;

    open spec fn view(&self) -> Rat {
        Rat { n: self.n as int, d: self.d as int }
    }
}

pub open spec fn opt_rat(o: Option<Ratio>) -> Option<Rat> {
    match o {
        Some(v) => Some(v@),
        None => None,
    }
}

impl Ratio {
    pub open spec fn wf(self) -> bool {
        in_i64(self@)
    }

    /// `n / d`, stored as given.
    pub fn new(n: i64, d: i64) -> (r: Ratio)
        requires
            d > 0,
            n > i64::MIN,
        ensures
            r@ == (Rat { n: n as int, d: d as int }),
            r.wf(),
    {
        Ratio { n, d }
    }

    /// The whole number `n`.
    pub fn from_int(n: i64) -> (r: Ratio)
        requires
            n > i64::MIN,
        ensures
            r@ == rat_int(n as int),
            r.wf(),
    {
        Ratio { n, d: 1 }
    }

    pub fn zero() -> (r: Ratio)
        ensures
            r@ == rat_int(0),
            r.wf(),
    {
        Ratio { n: 0, d: 1 }
    }

    pub fn one() -> (r: Ratio)
        ensures
            r@ == rat_int(1),
            r.wf(),
    {
        Ratio { n: 1, d: 1 }
    }

    pub fn num(&self) -> (r: i64)
        ensures
            r as int == self@.n,
    {
        self.n
    }

    pub fn den(&self) -> (r: i64)
        ensures
            r as int == self@.d,
    {
        self.d
    }

    pub fn is_positive(&self) -> (r: bool)
        ensures
            r == (self@.n > 0),
    {
        self.n > 0
    }

    pub fn neg(&self) -> (r: Ratio)
        requires
            self.wf(),
        ensures
            r@ == rat_neg(self@),
            r.wf(),
    {
        Ratio { n: -self.n, d: self.d }
    }

    /// Exact comparison by cross-multiplication.
    pub fn le(&self, other: &Ratio) -> (r: bool)
        requires
            self.wf(),
            other.wf(),
        ensures
            r == rat_le(self@, other@),
    {
        proof {
            lemma_i64_products_fit(self@.n, other@.d, other@.n, self@.d);
        }
        (self.n as i128) * (other.d as i128) <= (other.n as i128) * (self.d as i128)
    }

    /// Exact comparison by cross-multiplication.
    pub fn lt(&self, other: &Ratio) -> (r: bool)
        requires
            self.wf(),
            other.wf(),
        ensures
            r == rat_lt(self@, other@),
    {
        proof {
            lemma_i64_products_fit(self@.n, other@.d, other@.n, self@.d);
        }
        (self.n as i128) * (other.d as i128) < (other.n as i128) * (self.d as i128)
    }

    /// Exact value equality (not representation equality).
    pub fn eq_value(&self, other: &Ratio) -> (r: bool)
        requires
            self.wf(),
            other.wf(),
        ensures
            r == rat_eq(self@, other@),
    {
        proof {
            lemma_i64_products_fit(self@.n, other@.d, other@.n, self@.d);
        }
        (self.n as i128) * (other.d as i128) == (other.n as i128) * (self.d as i128)
    }

    /// `1 / self` when positive, else `0`.
    pub fn recip_or_zero(&self) -> (r: Ratio)
        requires
            self.wf(),
        ensures
            r@ == rat_recip_or_zero(self@),
            r.wf(),
    {
        if self.n > 0 {
            Ratio { n: self.d, d: self.n }
        } else {
            Ratio { n: 0, d: 1 }
        }
    }

    /// The threshold [`rat_eps`].
    pub fn epsilon() -> (r: Ratio)
        ensures
            r@ == rat_eps(),
            r.wf(),
    {
        Ratio { n: 1, d: 8388608 }
    }

    pub fn checked_add(&self, other: &Ratio) -> (r: Option<Ratio>)
        requires
            self.wf(),
            other.wf(),
        ensures
            opt_rat(r) == qadd(Some(self@), Some(other@)),
            r matches Some(v) ==> v.wf(),
    {
        proof {
            lemma_i64_products_fit(self@.n, other@.d, other@.n, self@.d);
            lemma_i64_products_fit(self@.d, other@.d, 0, 0);
            lemma_pos_mul(self@.d, other@.d);
        }
        let n: i128 = (self.n as i128) * (other.d as i128) + (other.n as i128) * (self.d as i128);
        let d: i128 = (self.d as i128) * (other.d as i128);
        norm_i128(n, d)
    }

    pub fn checked_sub(&self, other: &Ratio) -> (r: Option<Ratio>)
        requires
            self.wf(),
            other.wf(),
        ensures
            opt_rat(r) == qsub(Some(self@), Some(other@)),
            r matches Some(v) ==> v.wf(),
    {
        proof {
            lemma_i64_products_fit(self@.n, other@.d, other@.n, self@.d);
            lemma_i64_products_fit(self@.d, other@.d, 0, 0);
            lemma_pos_mul(self@.d, other@.d);
        }
        let n: i128 = (self.n as i128) * (other.d as i128) - (other.n as i128) * (self.d as i128);
        let d: i128 = (self.d as i128) * (other.d as i128);
        norm_i128(n, d)
    }

    pub fn checked_mul(&self, other: &Ratio) -> (r: Option<Ratio>)
        requires
            self.wf(),
            other.wf(),
        ensures
            opt_rat(r) == qmul(Some(self@), Some(other@)),
            r matches Some(v) ==> v.wf(),
    {
        proof {
            lemma_i64_products_fit(self@.n, other@.n, 0, 0);
            lemma_i64_products_fit(self@.d, other@.d, 0, 0);
            lemma_pos_mul(self@.d, other@.d);
        }
        let n: i128 = (self.n as i128) * (other.n as i128);
        let d: i128 = (self.d as i128) * (other.d as i128);
        norm_i128(n, d)
    }

    /// Exact quotient; `None` when `other` is zero or the result does not fit.
    pub fn checked_div(&self, other: &Ratio) -> (r: Option<Ratio>)
        requires
            self.wf(),
            other.wf(),
        ensures
            opt_rat(r) == qdiv(Some(self@), Some(other@)),
            r matches Some(v) ==> v.wf(),
    {
        if other.n == 0 {
            return None;
        }
        proof {
            lemma_i64_products_fit(self@.n, other@.d, 0, 0);
            lemma_i64_products_fit(self@.d, other@.n, 0, 0);
        }
        let n0: i128 = (self.n as i128) * (other.d as i128);
        let d0: i128 = (self.d as i128) * (other.n as i128);
        if other.n > 0 {
            proof {
                assert(d0 > 0) by (nonlinear_arith)
                    requires
                        d0 == self@.d * other@.n,
                        self@.d > 0,
                        other@.n > 0,
                ;
            }
            norm_i128(n0, d0)
        } else {
            proof {
                assert(-d0 > 0) by (nonlinear_arith)
                    requires
                        d0 == self@.d * other@.n,
                        self@.d > 0,
                        other@.n < 0,
                ;
            }
            norm_i128(-n0, -d0)
        }
    }

    /// `max(self - other, 0)`; `None` only when a positive difference does not
    /// fit the representation.
    pub fn checked_sub_clamped(&self, other: &Ratio) -> (r: Option<Ratio>)
        requires
            self.wf(),
            other.wf(),
        ensures
            opt_rat(r) == q_sub_clamped(Some(self@), Some(other@)),
            r matches Some(v) ==> v.wf() && v@.n >= 0,
    {
        proof {
            lemma_i64_products_fit(self@.n, other@.d, other@.n, self@.d);
            lemma_i64_products_fit(self@.d, other@.d, 0, 0);
            lemma_pos_mul(self@.d, other@.d);
        }
        let n: i128 = (self.n as i128) * (other.d as i128) - (other.n as i128) * (self.d as i128);
        let d: i128 = (self.d as i128) * (other.d as i128);
        if n < 0 {
            Some(Ratio { n: 0, d: 1 })
        } else {
            let r = norm_i128(n, d);
            proof {
                lemma_rat_norm(Rat { n: n as int, d: d as int });
            }
            r
        }
    }
}

/// A `Some` result of [`q_norm`] is well-formed, keeps the value of its
/// argument, and keeps its sign.
pub proof fn lemma_q_norm_some(a: Rat)
    requires
        rat_wf(a),
        q_norm(a) is Some,
    ensures
        rat_wf(q_norm(a)->Some_0),
        rat_eq(q_norm(a)->Some_0, a),
        q_norm(a)->Some_0.n > 0 <==> a.n > 0,
        q_norm(a)->Some_0.n < 0 <==> a.n < 0,
{
    lemma_rat_norm(a);
}

/// Value equality is transitive (for well-formed operands).
pub proof fn lemma_rat_eq_trans(a: Rat, b: Rat, c: Rat) by (nonlinear_arith)
    requires
        rat_wf(a),
        rat_wf(b),
        rat_wf(c),
        rat_eq(a, b),
        rat_eq(b, c),
    ensures
        rat_eq(a, c),
{
}

/// Equal values have numerators of the same sign.
pub proof fn lemma_rat_eq_sign(a: Rat, b: Rat) by (nonlinear_arith)
    requires
        rat_wf(a),
        rat_wf(b),
        rat_eq(a, b),
    ensures
        a.n > 0 <==> b.n > 0,
        a.n < 0 <==> b.n < 0,
{
}

/// Addition respects value equality.
pub proof fn lemma_rat_add_cong(a: Rat, b: Rat, a2: Rat, b2: Rat)
    requires
        rat_wf(a),
        rat_wf(b),
        rat_wf(a2),
        rat_wf(b2),
        rat_eq(a, a2),
        rat_eq(b, b2),
    ensures
        rat_eq(rat_add(a, b), rat_add(a2, b2)),
{
    assert((a.n * b.d) * (a2.d * b2.d) == (a2.n * b2.d) * (a.d * b.d)) by (nonlinear_arith)
        requires
            a.n * a2.d == a2.n * a.d,
    ;
    assert((b.n * a.d) * (a2.d * b2.d) == (b2.n * a2.d) * (a.d * b.d)) by (nonlinear_arith)
        requires
            b.n * b2.d == b2.n * b.d,
    ;
    assert((a.n * b.d + b.n * a.d) * (a2.d * b2.d) == (a.n * b.d) * (a2.d * b2.d) + (b.n * a.d)
        * (a2.d * b2.d)) by (nonlinear_arith);
    assert((a2.n * b2.d + b2.n * a2.d) * (a.d * b.d) == (a2.n * b2.d) * (a.d * b.d) + (b2.n * a2.d)
        * (a.d * b.d)) by (nonlinear_arith);
}

/// Subtraction respects value equality.
pub proof fn lemma_rat_sub_cong(a: Rat, b: Rat, a2: Rat, b2: Rat)
    requires
        rat_wf(a),
        rat_wf(b),
        rat_wf(a2),
        rat_wf(b2),
        rat_eq(a, a2),
        rat_eq(b, b2),
    ensures
        rat_eq(rat_sub(a, b), rat_sub(a2, b2)),
{
    assert((a.n * b.d) * (a2.d * b2.d) == (a2.n * b2.d) * (a.d * b.d)) by (nonlinear_arith)
        requires
            a.n * a2.d == a2.n * a.d,
    ;
    assert((b.n * a.d) * (a2.d * b2.d) == (b2.n * a2.d) * (a.d * b.d)) by (nonlinear_arith)
        requires
            b.n * b2.d == b2.n * b.d,
    ;
    assert((a.n * b.d - b.n * a.d) * (a2.d * b2.d) == (a.n * b.d) * (a2.d * b2.d) - (b.n * a.d)
        * (a2.d * b2.d)) by (nonlinear_arith);
    assert((a2.n * b2.d - b2.n * a2.d) * (a.d * b.d) == (a2.n * b2.d) * (a.d * b.d) - (b2.n * a2.d)
        * (a.d * b.d)) by (nonlinear_arith);
}

/// Multiplication respects value equality.
pub proof fn lemma_rat_mul_cong(a: Rat, b: Rat, a2: Rat, b2: Rat)
    requires
        rat_wf(a),
        rat_wf(b),
        rat_wf(a2),
        rat_wf(b2),
        rat_eq(a, a2),
        rat_eq(b, b2),
    ensures
        rat_eq(rat_mul(a, b), rat_mul(a2, b2)),
{
    assert((a.n * b.n) * (a2.d * b2.d) == (a2.n * b2.n) * (a.d * b.d)) by (nonlinear_arith)
        requires
            a.n * a2.d == a2.n * a.d,
            b.n * b2.d == b2.n * b.d,
    ;
}

/// Division respects value equality (for non-zero divisors).
pub proof fn lemma_rat_div_cong(a: Rat, b: Rat, a2: Rat, b2: Rat)
    requires
        rat_wf(a),
        rat_wf(b),
        rat_wf(a2),
        rat_wf(b2),
        b.n != 0,
        b2.n != 0,
        rat_eq(a, a2),
        rat_eq(b, b2),
    ensures
        rat_eq(rat_div(a, b), rat_div(a2, b2)),
{
    lemma_rat_eq_sign(b, b2);
    assert((a.n * b.d) * (a2.d * b2.n) == (a2.n * b2.d) * (a.d * b.n)) by (nonlinear_arith)
        requires
            a.n * a2.d == a2.n * a.d,
            b.n * b2.d == b2.n * b.d,
    ;
    if b.n < 0 {
        lemma_mul_neg_neg(a.n * b.d, a2.d * b2.n);
        lemma_mul_neg_neg(a2.n * b2.d, a.d * b.n);
    }
}

/// `(-x) * (-y) == x * y`.
pub proof fn lemma_mul_neg_neg(x: int, y: int) by (nonlinear_arith)
    ensures
        (-x) * (-y) == x * y,
{
}

/// The strict order respects value equality.
pub proof fn lemma_rat_lt_cong(a: Rat, b: Rat, a2: Rat, b2: Rat) by (nonlinear_arith)
    requires
        rat_wf(a),
        rat_wf(b),
        rat_wf(a2),
        rat_wf(b2),
        rat_eq(a, a2),
        rat_eq(b, b2),
    ensures
        rat_lt(a, b) <==> rat_lt(a2, b2),
{
}

/// The cached-inverse map respects value equality.
pub proof fn lemma_rat_recip_cong(a: Rat, b: Rat)
    requires
        rat_wf(a),
        rat_wf(b),
        rat_eq(a, b),
    ensures
        rat_eq(rat_recip_or_zero(a), rat_recip_or_zero(b)),
{
    lemma_rat_eq_sign(a, b);
    if a.n > 0 {
        assert(a.d * b.n == b.d * a.n) by (nonlinear_arith)
            requires
                a.n * b.d == b.n * a.d,
        ;
    }
}

/// `(a / b) * b == a` for a non-zero `b`.
pub proof fn lemma_rat_div_mul_cancel(a: Rat, b: Rat) by (nonlinear_arith)
    requires
        rat_wf(a),
        rat_wf(b),
        b.n != 0,
    ensures
        rat_eq(rat_mul(rat_div(a, b), b), a),
{
}

/// The product of two positive integers is positive.
pub proof fn lemma_pos_mul(a: int, b: int) by (nonlinear_arith)
    requires
        a >= 1,
        b >= 1,
    ensures
        a * b >= 1,
{
}

/// Products and twofold sums of products of `i64` values stay inside `i128`.
proof fn lemma_i64_products_fit(a: int, b: int, c: int, d: int) by (nonlinear_arith)
    requires
        -(i64::MAX as int) <= a <= i64::MAX as int,
        -(i64::MAX as int) <= b <= i64::MAX as int,
        -(i64::MAX as int) <= c <= i64::MAX as int,
        -(i64::MAX as int) <= d <= i64::MAX as int,
    ensures
        (i128::MIN as int) < a * b + c * d,
        a * b + c * d < i128::MAX as int,
        (i128::MIN as int) < a * b - c * d,
        a * b - c * d < i128::MAX as int,
        (i128::MIN as int) < a * b,
        a * b < i128::MAX as int,
{
}

fn gcd_u128(a0: u128, b0: u128) -> (g: u128)
    ensures
        g as nat == gcd(a0 as nat, b0 as nat),
    decreases b0,
{
    let mut a: u128 = a0;
    let mut b: u128 = b0;
    while b != 0
        invariant
            gcd(a as nat, b as nat) == gcd(a0 as nat, b0 as nat),
        decreases b,
    {
        let t: u128 = a % b;
        a = b;
        b = t;
    }
    a
}

/// Reduce `n / d` and narrow it to `i64`, exactly as [`q_norm`] describes.
fn norm_i128(n: i128, d: i128) -> (r: Option<Ratio>)
    requires
        d > 0,
        n > i128::MIN,
    ensures
        opt_rat(r) == q_norm(Rat { n: n as int, d: d as int }),
        r matches Some(v) ==> v.wf(),
    {
    let a = Ghost(Rat { n: n as int, d: d as int });
    let neg = n < 0;
    let un: u128 = if n < 0 {
        (-n) as u128
    } else {
        n as u128
    };
    let ud: u128 = d as u128;
    proof {
        lemma_gcd_divides(un as nat, ud as nat);
    }
    let g: u128 = gcd_u128(un, ud);
    let qn: u128 = un / g;
    let qd: u128 = ud / g;
    proof {
        lemma_rat_norm(a@);
        lemma_fundamental_div_mod(un as int, g as int);
        lemma_fundamental_div_mod(ud as int, g as int);
        assert(iabs(a@.n) == un as int && a@.d == ud as int);
        assert(qn as int == iabs(a@.n) / (gcd(iabs(a@.n) as nat, a@.d as nat) as int));
        assert(qd as int == a@.d / (gcd(iabs(a@.n) as nat, a@.d as nat) as int));
        assert(rat_norm(a@).d == qd as int);
        assert(rat_norm(a@).n == if neg { -(qn as int) } else { qn as int });
    }
    if qn <= (i64::MAX as u128) && qd <= (i64::MAX as u128) {
        let nn: i64 = if neg {
            -(qn as i64)
        } else {
            qn as i64
        };
        Some(Ratio { n: nn, d: qd as i64 })
    } else {
        None
    }
}

} // verus!
