//! Exact 2D vectors over rational scalars.

use crate::rational::{
    lemma_rat_eq_trans, opt_rat, qadd, qmul, qsub, rat_eq, rat_int, rat_neg, rat_wf, Rat, Ratio,
};
use vstd::prelude::*;

verus! {

/// Mathematical 2D vector of rationals.
pub struct Vec2 {
    pub x: Rat,
    pub y: Rat,
}

pub open spec fn vec_wf(v: Vec2) -> bool {
    rat_wf(v.x) && rat_wf(v.y)
}

/// Componentwise value equality.
pub open spec fn vec_eq(a: Vec2, b: Vec2) -> bool {
    rat_eq(a.x, b.x) && rat_eq(a.y, b.y)
}

pub open spec fn vec_zero() -> Vec2 {
    Vec2 { x: rat_int(0), y: rat_int(0) }
}

/// The counterclockwise perpendicular `(-y, x)`.
pub open spec fn vec_perp(v: Vec2) -> Vec2 {
    Vec2 { x: rat_neg(v.y), y: v.x }
}

/// Pair two componentwise step results into a vector step result.
pub open spec fn v2o(x: Option<Rat>, y: Option<Rat>) -> Option<Vec2> {
    match (x, y) {
        (Some(a), Some(b)) => Some(Vec2 { x: a, y: b }),
        _ => None,
    }
}

pub open spec fn qv_add(a: Option<Vec2>, b: Option<Vec2>) -> Option<Vec2> {
    match (a, b) {
        (Some(u), Some(v)) => v2o(qadd(Some(u.x), Some(v.x)), qadd(Some(u.y), Some(v.y))),
        _ => None,
    }
}

pub open spec fn qv_sub(a: Option<Vec2>, b: Option<Vec2>) -> Option<Vec2> {
    match (a, b) {
        (Some(u), Some(v)) => v2o(qsub(Some(u.x), Some(v.x)), qsub(Some(u.y), Some(v.y))),
        _ => None,
    }
}

/// Scale a vector by a scalar.
pub open spec fn qv_scale(s: Option<Rat>, v: Option<Vec2>) -> Option<Vec2> {
    match (s, v) {
        (Some(a), Some(u)) => v2o(qmul(Some(a), Some(u.x)), qmul(Some(a), Some(u.y))),
        _ => None,
    }
}

/// Componentwise product (used for applying a scale factor of a transform).
pub open spec fn qv_cmul(a: Option<Vec2>, b: Option<Vec2>) -> Option<Vec2> {
    match (a, b) {
        (Some(u), Some(v)) => v2o(qmul(Some(u.x), Some(v.x)), qmul(Some(u.y), Some(v.y))),
        _ => None,
    }
}

/// Squared length `x * x + y * y`.
pub open spec fn q_length_squared(v: Option<Vec2>) -> Option<Rat> {
    match v {
        Some(u) => qadd(qmul(Some(u.x), Some(u.x)), qmul(Some(u.y), Some(u.y))),
        None => None,
    }
}

/// An exact 2D vector; the engine-native `Vector` type of this crate.
#[derive(Clone, Copy, PartialEq, Eq, Structural, Debug)]
pub struct Vector {
    pub x: Ratio,
    pub y: Ratio,
}

impl View for Vector {
    type V = Vec2;

    open spec fn view(&self) -> Vec2 {
        Vec2 { x: self.x@, y: self.y@ }
    }
}

pub open spec fn opt_vec(o: Option<Vector>) -> Option<Vec2> {
    match o {
        Some(v) => Some(v@),
        None => None,
    }
}

impl Vector {
    pub open spec fn wf(self) -> bool {
        self.x.wf() && self.y.wf()
    }

    pub fn new(x: Ratio, y: Ratio) -> (r: Vector)
        ensures
            r@ == (Vec2 { x: x@, y: y@ }),
    {
        Vector { x, y }
    }

    pub fn zero() -> (r: Vector)
        ensures
            r@ == vec_zero(),
            r.wf(),
    {
        Vector { x: Ratio::zero(), y: Ratio::zero() }
    }

    /// The vector `(v, v)`.
    pub fn splat(v: Ratio) -> (r: Vector)
        ensures
            r@ == (Vec2 { x: v@, y: v@ }),
    {
        Vector { x: v, y: v }
    }

    /// The counterclockwise perpendicular `(-y, x)`.
    pub fn perp(&self) -> (r: Vector)
        requires
            self.wf(),
        ensures
            r@ == vec_perp(self@),
            r.wf(),
    {
        Vector { x: self.y.neg(), y: self.x }
    }

    pub fn checked_add(&self, other: &Vector) -> (r: Option<Vector>)
        requires
            self.wf(),
            other.wf(),
        ensures
            opt_vec(r) == qv_add(Some(self@), Some(other@)),
            r matches Some(v) ==> v.wf(),
    {
        match (self.x.checked_add(&other.x), self.y.checked_add(&other.y)) {
            (Some(x), Some(y)) => Some(Vector { x, y }),
            _ => None,
        }
    }

    pub fn checked_sub(&self, other: &Vector) -> (r: Option<Vector>)
        requires
            self.wf(),
            other.wf(),
        ensures
            opt_vec(r) == qv_sub(Some(self@), Some(other@)),
            r matches Some(v) ==> v.wf(),
    {
        match (self.x.checked_sub(&other.x), self.y.checked_sub(&other.y)) {
            (Some(x), Some(y)) => Some(Vector { x, y }),
            _ => None,
        }
    }

    pub fn checked_scale(&self, s: &Ratio) -> (r: Option<Vector>)
        requires
            self.wf(),
            s.wf(),
        ensures
            opt_vec(r) == qv_scale(Some(s@), Some(self@)),
            r matches Some(v) ==> v.wf(),
    {
        match (s.checked_mul(&self.x), s.checked_mul(&self.y)) {
            (Some(x), Some(y)) => Some(Vector { x, y }),
            _ => None,
        }
    }

    /// Componentwise product.
    pub fn checked_cmul(&self, other: &Vector) -> (r: Option<Vector>)
        requires
            self.wf(),
            other.wf(),
        ensures
            opt_vec(r) == qv_cmul(Some(self@), Some(other@)),
            r matches Some(v) ==> v.wf(),
    {
        match (self.x.checked_mul(&other.x), self.y.checked_mul(&other.y)) {
            (Some(x), Some(y)) => Some(Vector { x, y }),
            _ => None,
        }
    }

    /// Squared length.
    pub fn checked_length_squared(&self) -> (r: Option<Ratio>)
        requires
            self.wf(),
        ensures
            opt_rat(r) == q_length_squared(Some(self@)),
            r matches Some(v) ==> v.wf(),
    {
        match (self.x.checked_mul(&self.x), self.y.checked_mul(&self.y)) {
            (Some(xx), Some(yy)) => xx.checked_add(&yy),
            _ => None,
        }
    }
}

/// Componentwise value equality is transitive.
pub proof fn lemma_vec_eq_trans(a: Vec2, b: Vec2, c: Vec2)
    requires
        vec_wf(a),
        vec_wf(b),
        vec_wf(c),
        vec_eq(a, b),
        vec_eq(b, c),
    ensures
        vec_eq(a, c),
{
    lemma_rat_eq_trans(a.x, b.x, c.x);
    lemma_rat_eq_trans(a.y, b.y, c.y);
}

} // verus!
