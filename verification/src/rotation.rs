//! Exact 2D rotations, stored as the cosine/sine pair of the angle.

use crate::rational::{
    qadd, qmul, qsub, rat_add, rat_eq, rat_int, rat_mul, rat_neg, rat_wf, Rat, Ratio,
};
use crate::vector::{opt_vec, v2o, Vec2, Vector};
use vstd::prelude::*;

verus! {

/// Mathematical 2D rotation: the pair `(cos, sin)`.
pub struct Rot2 {
    pub cos: Rat,
    pub sin: Rat,
}

pub open spec fn rot_wf(r: Rot2) -> bool {
    rat_wf(r.cos) && rat_wf(r.sin)
}

pub open spec fn rot_eq(a: Rot2, b: Rot2) -> bool {
    rat_eq(a.cos, b.cos) && rat_eq(a.sin, b.sin)
}

pub open spec fn rot_identity() -> Rot2 {
    Rot2 { cos: rat_int(1), sin: rat_int(0) }
}

/// A genuine rotation satisfies `cos^2 + sin^2 == 1`.
pub open spec fn rot_unit(r: Rot2) -> bool {
    rat_eq(rat_add(rat_mul(r.cos, r.cos), rat_mul(r.sin, r.sin)), rat_int(1))
}

/// The inverse rotation (the conjugate, for a unit rotation).
pub open spec fn rot_inverse(r: Rot2) -> Rot2 {
    Rot2 { cos: r.cos, sin: rat_neg(r.sin) }
}

/// Composition of two rotations, by the angle-sum identities.
pub open spec fn q_rot_compose(a: Option<Rot2>, b: Option<Rot2>) -> Option<Rot2> {
    match (a, b) {
        (Some(u), Some(v)) => {
            let c = qsub(qmul(Some(u.cos), Some(v.cos)), qmul(Some(u.sin), Some(v.sin)));
            let s = qadd(qmul(Some(u.sin), Some(v.cos)), qmul(Some(u.cos), Some(v.sin)));
            match (c, s) {
                (Some(cc), Some(ss)) => Some(Rot2 { cos: cc, sin: ss }),
                _ => None,
            }
        },
        _ => None,
    }
}

/// A rotation applied to a vector:
/// `(cos * x - sin * y, sin * x + cos * y)`.
pub open spec fn q_rotate(r: Option<Rot2>, v: Option<Vec2>) -> Option<Vec2> {
    match (r, v) {
        (Some(u), Some(w)) => v2o(
            qsub(qmul(Some(u.cos), Some(w.x)), qmul(Some(u.sin), Some(w.y))),
            qadd(qmul(Some(u.sin), Some(w.x)), qmul(Some(u.cos), Some(w.y))),
        ),
        _ => None,
    }
}

/// The engine-native rotation component: an exact `(cos, sin)` pair.
#[derive(Clone, Copy, PartialEq, Eq, Structural, Debug)]
pub struct Rotation {
    pub cos: Ratio,
    pub sin: Ratio,
}

impl View for Rotation {
    type V = Rot2;

    open spec fn view(&self) -> Rot2 {
        Rot2 { cos: self.cos@, sin: self.sin@ }
    }
}

pub open spec fn opt_rot(o: Option<Rotation>) -> Option<Rot2> {
    match o {
        Some(v) => Some(v@),
        None => None,
    }
}

impl Rotation {
    pub open spec fn wf(self) -> bool {
        self.cos.wf() && self.sin.wf()
    }

    /// The rotation with the given cosine and sine.
    pub fn from_cos_sin(cos: Ratio, sin: Ratio) -> (r: Rotation)
        ensures
            r@ == (Rot2 { cos: cos@, sin: sin@ }),
    {
        Rotation { cos, sin }
    }

    /// The identity rotation (angle zero).
    pub fn identity() -> (r: Rotation)
        ensures
            r@ == rot_identity(),
            r.wf(),
    {
        Rotation { cos: Ratio::one(), sin: Ratio::zero() }
    }

    /// The inverse rotation.
    pub fn inverse(&self) -> (r: Rotation)
        requires
            self.wf(),
        ensures
            r@ == rot_inverse(self@),
            r.wf(),
    {
        Rotation { cos: self.cos, sin: self.sin.neg() }
    }

    /// The composition `self * other`: the rotation that applies `other`
    /// first and `self` after it.
    pub fn checked_compose(&self, other: &Rotation) -> (r: Option<Rotation>)
        requires
            self.wf(),
            other.wf(),
        ensures
            opt_rot(r) == q_rot_compose(Some(self@), Some(other@)),
            r matches Some(v) ==> v.wf(),
    {
        let cc = self.cos.checked_mul(&other.cos);
        let ss = self.sin.checked_mul(&other.sin);
        let sc = self.sin.checked_mul(&other.cos);
        let cs = self.cos.checked_mul(&other.sin);
        match (cc, ss, sc, cs) {
            (Some(cc), Some(ss), Some(sc), Some(cs)) => {
                match (cc.checked_sub(&ss), sc.checked_add(&cs)) {
                    (Some(c), Some(s)) => Some(Rotation { cos: c, sin: s }),
                    _ => None,
                }
            },
            _ => None,
        }
    }

    /// This rotation applied to a vector.
    pub fn checked_rotate(&self, v: &Vector) -> (r: Option<Vector>)
        requires
            self.wf(),
            v.wf(),
        ensures
            opt_vec(r) == q_rotate(Some(self@), Some(v@)),
            r matches Some(u) ==> u.wf(),
    {
        let cx = self.cos.checked_mul(&v.x);
        let sy = self.sin.checked_mul(&v.y);
        let sx = self.sin.checked_mul(&v.x);
        let cy = self.cos.checked_mul(&v.y);
        match (cx, sy, sx, cy) {
            (Some(cx), Some(sy), Some(sx), Some(cy)) => {
                match (cx.checked_sub(&sy), sx.checked_add(&cy)) {
                    (Some(x), Some(y)) => Some(Vector { x, y }),
                    _ => None,
                }
            },
            _ => None,
        }
    }
}

impl Default for Rotation {
    /// The identity rotation.
    fn default() -> (r: Rotation)
        ensures
            r@ == rot_identity(),
            r.wf(),
    {
        Rotation::identity()
    }
}

} // verus!
