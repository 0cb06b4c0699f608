//! The per-entity components of a rigid body.

use crate::rational::{opt_rat, qadd, qmul, rat_int, rat_recip_or_zero, Rat, Ratio};
use crate::rotation::{rot_identity, Rot2, Rotation};
use crate::vector::{q_length_squared, vec_zero, Vec2, Vector};
use vstd::prelude::*;

verus! {

/// The kind of a rigid body. Only `Dynamic` bodies have finite mass and are
/// influenced by forces; `Kinematic` and `Static` bodies are infinite-mass.
#[derive(Clone, Copy, PartialEq, Eq, Structural, Debug)]
pub enum RigidBody {
    Dynamic,
    Kinematic,
    Static,
}

impl RigidBody {
    pub fn is_dynamic(&self) -> (r: bool)
        ensures
            r == (*self == RigidBody::Dynamic),
    {
        matches!(self, RigidBody::Dynamic)
    }

    pub fn is_kinematic(&self) -> (r: bool)
        ensures
            r == (*self == RigidBody::Kinematic),
    {
        matches!(self, RigidBody::Kinematic)
    }

    pub fn is_static(&self) -> (r: bool)
        ensures
            r == (*self == RigidBody::Static),
    {
        matches!(self, RigidBody::Static)
    }
}

/// Absolute engine-native translation of a body, authoritative for the solver.
#[derive(Clone, Copy, PartialEq, Eq, Structural, Debug)]
pub struct Position(pub Vector);

impl Default for Position {
    /// The origin.
    fn default() -> (r: Position)
        ensures
            r.0@ == vec_zero(),
            r.0.wf(),
    {
        Position(Vector::zero())
    }
}

/// Snapshot of [`Rotation`] at the end of the previous synchronization step.
#[derive(Clone, Copy, PartialEq, Eq, Structural, Debug)]
pub struct PreviousRotation(pub Rotation);

impl Default for PreviousRotation {
    fn default() -> (r: PreviousRotation)
        ensures
            r.0@ == rot_identity(),
            r.0.wf(),
    {
        PreviousRotation(Rotation::identity())
    }
}

/// A translation accumulated during sub-stepping, not yet folded into
/// [`Position`].
#[derive(Clone, Copy, PartialEq, Eq, Structural, Debug)]
pub struct AccumulatedTranslation(pub Vector);

impl Default for AccumulatedTranslation {
    fn default() -> (r: AccumulatedTranslation)
        ensures
            r.0@ == vec_zero(),
            r.0.wf(),
    {
        AccumulatedTranslation(Vector::zero())
    }
}

/// Current linear velocity.
#[derive(Clone, Copy, PartialEq, Eq, Structural, Debug)]
pub struct LinearVelocity(pub Vector);

/// Current angular velocity (scalar in 2D).
#[derive(Clone, Copy, PartialEq, Eq, Structural, Debug)]
pub struct AngularVelocity(pub Ratio);

/// Linear velocity sampled before the solve, for restitution and bias terms.
#[derive(Clone, Copy, PartialEq, Eq, Structural, Debug)]
pub struct PreSolveLinearVelocity(pub Vector);

/// Angular velocity sampled before the solve.
#[derive(Clone, Copy, PartialEq, Eq, Structural, Debug)]
pub struct PreSolveAngularVelocity(pub Ratio);

/// Local-frame offset of the center of mass from the body origin.
#[derive(Clone, Copy, PartialEq, Eq, Structural, Debug)]
pub struct CenterOfMass(pub Vector);

impl Default for CenterOfMass {
    fn default() -> (r: CenterOfMass)
        ensures
            r.0@ == vec_zero(),
            r.0.wf(),
    {
        CenterOfMass(Vector::zero())
    }
}

/// Friction coefficient of a body.
#[derive(Clone, Copy, PartialEq, Eq, Structural, Debug)]
pub struct Friction {
    pub coefficient: Ratio,
}

/// Restitution coefficient of a body; after finalization it always lies in
/// `[0, 1]`.
#[derive(Clone, Copy, PartialEq, Eq, Structural, Debug)]
pub struct Restitution {
    pub coefficient: Ratio,
}

impl Default for Restitution {
    /// A coefficient of zero: no bounce.
    fn default() -> (r: Restitution)
        ensures
            r.coefficient@ == rat_int(0),
            r.coefficient.wf(),
    {
        Restitution { coefficient: Ratio::zero() }
    }
}

/// Degrees of freedom frozen regardless of applied forces.
#[derive(Clone, Copy, PartialEq, Eq, Structural, Debug)]
pub struct LockedAxes {
    pub translation_x: bool,
    pub translation_y: bool,
    pub rotation: bool,
}

impl LockedAxes {
    /// No axis locked.
    pub fn new() -> (r: LockedAxes)
        ensures
            !r.translation_x,
            !r.translation_y,
            !r.rotation,
    {
        LockedAxes { translation_x: false, translation_y: false, rotation: false }
    }

    pub fn lock_translation_x(self) -> (r: LockedAxes)
        ensures
            r.translation_x,
            r.translation_y == self.translation_y,
            r.rotation == self.rotation,
    {
        LockedAxes { translation_x: true, ..self }
    }

    pub fn lock_translation_y(self) -> (r: LockedAxes)
        ensures
            r.translation_y,
            r.translation_x == self.translation_x,
            r.rotation == self.rotation,
    {
        LockedAxes { translation_y: true, ..self }
    }

    pub fn lock_rotation(self) -> (r: LockedAxes)
        ensures
            r.rotation,
            r.translation_x == self.translation_x,
            r.translation_y == self.translation_y,
    {
        LockedAxes { rotation: true, ..self }
    }

    /// Zero the components of `v` on locked translation axes.
    pub fn apply_to_vec(&self, v: Vector) -> (r: Vector)
        ensures
            r@ == locked_apply_to_vec(*self, v@),
            v.wf() ==> r.wf(),
    {
        Vector {
            x: if self.translation_x {
                Ratio::zero()
            } else {
                v.x
            },
            y: if self.translation_y {
                Ratio::zero()
            } else {
                v.y
            },
        }
    }

    /// Zero `i` when rotation is locked.
    pub fn apply_to_rotation(&self, i: Ratio) -> (r: Ratio)
        ensures
            r@ == locked_apply_to_rotation(*self, i@),
            i.wf() ==> r.wf(),
    {
        if self.rotation {
            Ratio::zero()
        } else {
            i
        }
    }
}

pub open spec fn locked_apply_to_vec(axes: LockedAxes, v: Vec2) -> Vec2 {
    Vec2 {
        x: if axes.translation_x {
            rat_int(0)
        } else {
            v.x
        },
        y: if axes.translation_y {
            rat_int(0)
        } else {
            v.y
        },
    }
}

pub open spec fn locked_apply_to_rotation(axes: LockedAxes, i: Rat) -> Rat {
    if axes.rotation {
        rat_int(0)
    } else {
        i
    }
}

/// Signed priority deciding which of two colliding bodies yields.
#[derive(Clone, Copy, PartialEq, Eq, Structural, Debug)]
pub struct Dominance(pub i8);

/// How long a body has been still, used by sleep management.
#[derive(Clone, Copy, PartialEq, Eq, Structural, Debug)]
pub struct TimeSleeping(pub Ratio);

/// Mass of a body: a non-negative value plus its cached inverse.
/// `value == None` is the infinite mass of a non-dynamic body; its inverse is
/// zero. A zero mass also has inverse zero.
#[derive(Clone, Copy, PartialEq, Eq, Debug)]
pub struct Mass {
    pub value: Option<Ratio>,
    pub inverse: Ratio,
}

impl Mass {
    /// value finite and non-negative, or infinite; inverse cached as
    /// `1 / value` when `value > 0`, else `0`.
    pub open spec fn wf(self) -> bool {
        match self.value {
            Some(v) => v.wf() && v@.n >= 0 && self.inverse@ == rat_recip_or_zero(v@)
                && self.inverse.wf(),
            None => self.inverse@ == rat_int(0),
        }
    }

    pub open spec fn spec_value(self) -> Option<Rat> {
        match self.value {
            Some(v) => Some(v@),
            None => None,
        }
    }

    pub open spec fn is_finite(self) -> bool {
        self.value is Some
    }

    pub fn new(value: Ratio) -> (r: Mass)
        requires
            value.wf(),
            value@.n >= 0,
        ensures
            r.spec_value() == Some(value@),
            r.inverse@ == rat_recip_or_zero(value@),
            r.wf(),
    {
        Mass { value: Some(value), inverse: value.recip_or_zero() }
    }

    /// The infinite mass of a non-dynamic body.
    pub fn infinity() -> (r: Mass)
        ensures
            r.spec_value() is None,
            r.inverse@ == rat_int(0),
            r.wf(),
    {
        Mass { value: None, inverse: Ratio::zero() }
    }

    /// The stored value; `None` is infinite.
    pub fn value(&self) -> (r: Option<Ratio>)
        ensures
            match r {
                Some(v) => self.spec_value() == Some(v@) && (self.wf() ==> v.wf()),
                None => self.spec_value() is None,
            },
    {
        self.value
    }

    /// The stored value of a finite mass.
    pub fn finite_value(&self) -> (r: Ratio)
        requires
            self.is_finite(),
        ensures
            Some(r@) == self.spec_value(),
            self.wf() ==> r.wf(),
    {
        match self.value {
            Some(v) => v,
            None => vstd::pervasive::unreached(),
        }
    }

    /// Overwrite the value and refresh the cached inverse.
    pub fn set(&mut self, value: Ratio)
        requires
            value.wf(),
            value@.n >= 0,
        ensures
            final(self).spec_value() == Some(value@),
            final(self).inverse@ == rat_recip_or_zero(value@),
            final(self).wf(),
    {
        self.value = Some(value);
        self.inverse = value.recip_or_zero();
    }
}

impl Default for Mass {
    /// A zero mass (inverse zero as well).
    fn default() -> (r: Mass)
        ensures
            r.spec_value() == Some(rat_int(0)),
            r.inverse@ == rat_int(0),
            r.wf(),
    {
        Mass::new(Ratio::zero())
    }
}

/// Local-frame angular inertia (a scalar in 2D) plus its cached inverse,
/// with the same conventions as [`Mass`]. A removal may drive the value
/// negative; the inverse is cached only for positive values.
#[derive(Clone, Copy, PartialEq, Eq, Debug)]
pub struct AngularInertia {
    pub value: Option<Ratio>,
    pub inverse: Ratio,
}

impl AngularInertia {
    pub open spec fn wf(self) -> bool {
        match self.value {
            Some(v) => v.wf() && self.inverse@ == rat_recip_or_zero(v@) && self.inverse.wf(),
            None => self.inverse@ == rat_int(0),
        }
    }

    pub open spec fn spec_value(self) -> Option<Rat> {
        match self.value {
            Some(v) => Some(v@),
            None => None,
        }
    }

    pub open spec fn is_finite(self) -> bool {
        self.value is Some
    }

    pub fn new(value: Ratio) -> (r: AngularInertia)
        requires
            value.wf(),
        ensures
            r.spec_value() == Some(value@),
            r.inverse@ == rat_recip_or_zero(value@),
            r.wf(),
    {
        AngularInertia { value: Some(value), inverse: value.recip_or_zero() }
    }

    /// The infinite inertia of a non-dynamic body.
    pub fn infinity() -> (r: AngularInertia)
        ensures
            r.spec_value() is None,
            r.inverse@ == rat_int(0),
            r.wf(),
    {
        AngularInertia { value: None, inverse: Ratio::zero() }
    }

    /// The inertia whose inverse is `inverse`; a zero inverse yields a zero
    /// value.
    pub fn from_inverse(inverse: Ratio) -> (r: AngularInertia)
        requires
            inverse.wf(),
            inverse@.n >= 0,
        ensures
            r.spec_value() == Some(rat_recip_or_zero(inverse@)),
            r.inverse@ == rat_recip_or_zero(rat_recip_or_zero(inverse@)),
            r.wf(),
    {
        AngularInertia::new(inverse.recip_or_zero())
    }

    /// The stored value; `None` is infinite.
    pub fn value(&self) -> (r: Option<Ratio>)
        ensures
            match r {
                Some(v) => self.spec_value() == Some(v@) && (self.wf() ==> v.wf()),
                None => self.spec_value() is None,
            },
    {
        self.value
    }

    /// The stored value of a finite inertia.
    pub fn finite_value(&self) -> (r: Ratio)
        requires
            self.is_finite(),
        ensures
            Some(r@) == self.spec_value(),
            self.wf() ==> r.wf(),
    {
        match self.value {
            Some(v) => v,
            None => vstd::pervasive::unreached(),
        }
    }

    /// Overwrite the value and refresh the cached inverse.
    pub fn set(&mut self, value: Ratio)
        requires
            value.wf(),
        ensures
            final(self).spec_value() == Some(value@),
            final(self).inverse@ == rat_recip_or_zero(value@),
            final(self).wf(),
    {
        self.value = Some(value);
        self.inverse = value.recip_or_zero();
    }

    /// This inertia re-expressed about a point displaced by `offset`, by the
    /// parallel-axis theorem: `I + mass * |offset|^2`.
    pub fn shifted(&self, mass: &Ratio, offset: &Vector) -> (r: Option<Ratio>)
        requires
            self.is_finite(),
            self.wf(),
            mass.wf(),
            offset.wf(),
        ensures
            opt_rat(r) == q_shifted(self.spec_value()->Some_0, mass@, offset@),
            r matches Some(v) ==> v.wf(),
    {
        let v = match self.value {
            Some(v) => v,
            None => Ratio::zero(),
        };
        match offset.checked_length_squared() {
            Some(l2) => match mass.checked_mul(&l2) {
                Some(ml2) => v.checked_add(&ml2),
                None => None,
            },
            None => None,
        }
    }
}

/// The parallel-axis shift `I + m * |off|^2`, step by step as computed.
pub open spec fn q_shifted(i: Rat, m: Rat, off: Vec2) -> Option<Rat> {
    qadd(Some(i), qmul(Some(m), q_length_squared(Some(off))))
}

impl Default for AngularInertia {
    /// A zero inertia (inverse zero as well).
    fn default() -> (r: AngularInertia)
        ensures
            r.spec_value() == Some(rat_int(0)),
            r.inverse@ == rat_int(0),
            r.wf(),
    {
        AngularInertia::new(Ratio::zero())
    }
}

/// A local scene transform: translation, rotation and scale relative to the
/// parent (or to the world, for a root entity).
#[derive(Clone, Copy, PartialEq, Eq, Structural, Debug)]
pub struct Transform {
    pub translation: Vector,
    pub rotation: Rotation,
    pub scale: Vector,
}

/// The view shared by [`Transform`] and [`GlobalTransform`].
pub struct Affine2 {
    pub translation: Vec2,
    pub rotation: Rot2,
    pub scale: Vec2,
}

pub open spec fn affine_wf(t: Affine2) -> bool {
    crate::vector::vec_wf(t.translation) && crate::rotation::rot_wf(t.rotation)
        && crate::vector::vec_wf(t.scale)
}

impl View for Transform {
    type V = Affine2;

    open spec fn view(&self) -> Affine2 {
        Affine2 { translation: self.translation@, rotation: self.rotation@, scale: self.scale@ }
    }
}

impl Transform {
    pub open spec fn wf(self) -> bool {
        self.translation.wf() && self.rotation.wf() && self.scale.wf()
    }
}

impl Default for Transform {
    /// Identity: zero translation, identity rotation, unit scale.
    fn default() -> (r: Transform)
        ensures
            r@.translation == vec_zero(),
            r@.rotation == rot_identity(),
            r@.scale == (Vec2 { x: rat_int(1), y: rat_int(1) }),
            r.wf(),
    {
        Transform {
            translation: Vector::zero(),
            rotation: Rotation::identity(),
            scale: Vector { x: Ratio::one(), y: Ratio::one() },
        }
    }
}

/// A resolved absolute scene transform, with any parent chain already
/// composed in by the hierarchy-resolution collaborator.
#[derive(Clone, Copy, PartialEq, Eq, Structural, Debug)]
pub struct GlobalTransform {
    pub translation: Vector,
    pub rotation: Rotation,
    pub scale: Vector,
}

impl View for GlobalTransform {
    type V = Affine2;

    open spec fn view(&self) -> Affine2 {
        Affine2 { translation: self.translation@, rotation: self.rotation@, scale: self.scale@ }
    }
}

/// A point mapped through an affine transform:
/// `translation + rotation * (scale .* p)`.
pub open spec fn q_transform_point(t: Affine2, p: Vec2) -> Option<Vec2> {
    crate::vector::qv_add(
        Some(t.translation),
        crate::rotation::q_rotate(Some(t.rotation), crate::vector::qv_cmul(Some(t.scale), Some(p))),
    )
}

impl GlobalTransform {
    pub open spec fn wf(self) -> bool {
        self.translation.wf() && self.rotation.wf() && self.scale.wf()
    }

    /// Map a point from this transform's local space into world space.
    pub fn transform_point(&self, p: &Vector) -> (r: Option<Vector>)
        requires
            self.wf(),
            p.wf(),
        ensures
            crate::vector::opt_vec(r) == q_transform_point(self@, p@),
            r matches Some(v) ==> v.wf(),
    {
        match self.scale.checked_cmul(p) {
            Some(sp) => match self.rotation.checked_rotate(&sp) {
                Some(rp) => self.translation.checked_add(&rp),
                None => None,
            },
            None => None,
        }
    }
}

impl Default for GlobalTransform {
    /// Identity: zero translation, identity rotation, unit scale.
    fn default() -> (r: GlobalTransform)
        ensures
            r@.translation == vec_zero(),
            r@.rotation == rot_identity(),
            r@.scale == (Vec2 { x: rat_int(1), y: rat_int(1) }),
            r.wf(),
    {
        GlobalTransform {
            translation: Vector::zero(),
            rotation: Rotation::identity(),
            scale: Vector { x: Ratio::one(), y: Ratio::one() },
        }
    }
}

} // verus!
