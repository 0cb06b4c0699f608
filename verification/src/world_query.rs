//! Solver-facing queries over a rigid body's record, and the algebra of mass
//! properties under shape attachment and detachment.

use crate::components::{
    locked_apply_to_rotation, locked_apply_to_vec, q_shifted, AccumulatedTranslation,
    AngularInertia, AngularVelocity, CenterOfMass, Dominance, Friction, LinearVelocity,
    LockedAxes, Mass, Position, PreSolveAngularVelocity, PreSolveLinearVelocity,
    PreviousRotation, Restitution, RigidBody, TimeSleeping,
};
use crate::rational::{
    lemma_pos_mul, lemma_q_norm_some, opt_rat, q_sub_clamped, qadd, qdiv, qmul, qsub, rat_add,
    rat_eps, rat_int, rat_le, rat_lt, rat_neg, rat_recip_or_zero, rat_wf, Rat, Ratio,
};
use crate::rotation::{q_rotate, Rot2, Rotation};
use crate::vector::{
    opt_vec, qv_add, qv_scale, qv_sub, vec_perp, vec_wf, vec_zero, Vec2, Vector,
};
use vstd::pervasive::unreached;
use vstd::prelude::*;

verus! {

/// The locked axes in effect: the configured ones, or none.
pub open spec fn locked_or_open(o: Option<LockedAxes>) -> LockedAxes {
    match o {
        Some(l) => l,
        None => LockedAxes { translation_x: false, translation_y: false, rotation: false },
    }
}

/// Velocity of the point `p` (relative to the center of mass):
/// `linear + angular * perp(p)`.
pub open spec fn q_velocity_at_point(lin: Vec2, ang: Rat, p: Vec2) -> Option<Vec2> {
    qv_add(Some(lin), qv_scale(Some(ang), Some(vec_perp(p))))
}

/// The pending translation adjusted for the rotation delta since the last
/// fold, about the center of mass: `acc + prev * com - rot * com`.
pub open spec fn q_pos_translation(acc: Vec2, prev: Rot2, rot: Rot2, com: Vec2) -> Option<Vec2> {
    qv_sub(qv_add(Some(acc), q_rotate(Some(prev), Some(com))), q_rotate(Some(rot), Some(com)))
}

/// The up-to-date position: `position + adjusted pending translation`.
pub open spec fn q_current_position(
    pos: Vec2,
    acc: Vec2,
    prev: Rot2,
    rot: Rot2,
    com: Vec2,
) -> Option<Vec2> {
    qv_add(Some(pos), q_pos_translation(acc, prev, rot, com))
}

/// Effective per-axis inverse mass: zero for a non-dynamic body, otherwise
/// the splat of the cached inverse with locked translation axes zeroed.
pub open spec fn spec_effective_inv_mass(
    rb: RigidBody,
    inv: Rat,
    locked: Option<LockedAxes>,
) -> Vec2 {
    if rb != RigidBody::Dynamic {
        vec_zero()
    } else {
        locked_apply_to_vec(locked_or_open(locked), Vec2 { x: inv, y: inv })
    }
}

/// Effective world-space inverse inertia: zero for a non-dynamic body,
/// otherwise the cached inverse with a locked rotation axis zeroed.
pub open spec fn spec_effective_inv_inertia(
    rb: RigidBody,
    inv: Rat,
    locked: Option<LockedAxes>,
) -> Rat {
    if rb != RigidBody::Dynamic {
        rat_int(0)
    } else {
        locked_apply_to_rotation(locked_or_open(locked), inv)
    }
}

/// Dominance in effect: non-dynamic bodies always resolve to the maximum
/// priority; dynamic bodies to their configured value, or `0` if unset.
pub open spec fn spec_dominance(rb: RigidBody, dom: Option<Dominance>) -> int {
    if rb != RigidBody::Dynamic {
        i8::MAX as int
    } else {
        match dom {
            Some(d) => d.0 as int,
            None => 0,
        }
    }
}

/// The pending translation of a body, adjusted for the rotation delta since
/// the last fold (see [`q_pos_translation`]).
pub fn get_pos_translation(
    accumulated_translation: &AccumulatedTranslation,
    previous_rotation: &PreviousRotation,
    rotation: &Rotation,
    center_of_mass: &CenterOfMass,
) -> (r: Option<Vector>)
    requires
        accumulated_translation.0.wf(),
        previous_rotation.0.wf(),
        rotation.wf(),
        center_of_mass.0.wf(),
    ensures
        opt_vec(r) == q_pos_translation(
            accumulated_translation.0@,
            previous_rotation.0@,
            rotation@,
            center_of_mass.0@,
        ),
        r matches Some(v) ==> v.wf(),
{
    let pc = previous_rotation.0.checked_rotate(&center_of_mass.0);
    let rc = rotation.checked_rotate(&center_of_mass.0);
    match (pc, rc) {
        (Some(pc), Some(rc)) => match accumulated_translation.0.checked_add(&pc) {
            Some(s) => s.checked_sub(&rc),
            None => None,
        },
        _ => None,
    }
}

/// A mutable view of one rigid body's record, as handed to the solver.
#[derive(Clone, Copy, PartialEq, Eq, Debug)]
pub struct RigidBodyQueryItem {
    pub entity: u64,
    pub rb: RigidBody,
    pub position: Position,
    pub rotation: Rotation,
    pub previous_rotation: PreviousRotation,
    pub accumulated_translation: AccumulatedTranslation,
    pub linear_velocity: LinearVelocity,
    pub pre_solve_linear_velocity: PreSolveLinearVelocity,
    pub angular_velocity: AngularVelocity,
    pub pre_solve_angular_velocity: PreSolveAngularVelocity,
    pub mass: Mass,
    pub angular_inertia: AngularInertia,
    pub center_of_mass: CenterOfMass,
    pub friction: Friction,
    pub restitution: Restitution,
    pub locked_axes: Option<LockedAxes>,
    pub dominance: Option<Dominance>,
    pub time_sleeping: TimeSleeping,
    pub is_sleeping: bool,
    pub is_sensor: bool,
}

impl RigidBodyQueryItem {
    pub open spec fn wf(self) -> bool {
        &&& self.position.0.wf()
        &&& self.rotation.wf()
        &&& self.previous_rotation.0.wf()
        &&& self.accumulated_translation.0.wf()
        &&& self.linear_velocity.0.wf()
        &&& self.pre_solve_linear_velocity.0.wf()
        &&& self.angular_velocity.0.wf()
        &&& self.pre_solve_angular_velocity.0.wf()
        &&& self.mass.wf()
        &&& self.angular_inertia.wf()
        &&& self.center_of_mass.0.wf()
        &&& self.friction.coefficient.wf()
        &&& self.restitution.coefficient.wf()
        &&& self.time_sleeping.0.wf()
    }

    /// Computes the velocity at the given `point` relative to the center of
    /// the body.
    pub fn velocity_at_point(&self, point: Vector) -> (r: Vector)
        requires
            self.wf(),
            point.wf(),
            q_velocity_at_point(self.linear_velocity.0@, self.angular_velocity.0@, point@)
                is Some,
        ensures
            Some(r@) == q_velocity_at_point(
                self.linear_velocity.0@,
                self.angular_velocity.0@,
                point@,
            ),
            r.wf(),
    {
        let scaled = match point.perp().checked_scale(&self.angular_velocity.0) {
            Some(v) => v,
            None => unreached(),
        };
        match self.linear_velocity.0.checked_add(&scaled) {
            Some(v) => v,
            None => unreached(),
        }
    }

    /// Computes the effective inverse mass, taking into account any
    /// translation locking. Exactly zero for a non-dynamic body.
    pub fn effective_inv_mass(&self) -> (r: Vector)
        requires
            self.wf(),
        ensures
            r@ == spec_effective_inv_mass(self.rb, self.mass.inverse@, self.locked_axes),
            r.wf(),
            self.rb != RigidBody::Dynamic ==> r@ == vec_zero(),
    {
        if !self.rb.is_dynamic() {
            return Vector::zero();
        }
        let inv_mass = Vector::splat(self.mass.inverse);
        match self.locked_axes {
            Some(locked_axes) => locked_axes.apply_to_vec(inv_mass),
            None => inv_mass,
        }
    }

    /// Computes the effective world-space inverse inertia, taking into
    /// account any rotation locking. Exactly zero for a non-dynamic body.
    pub fn effective_world_inv_inertia(&self) -> (r: Ratio)
        requires
            self.wf(),
        ensures
            r@ == spec_effective_inv_inertia(self.rb, self.angular_inertia.inverse@,
                self.locked_axes),
            r.wf(),
            self.rb != RigidBody::Dynamic ==> r@ == rat_int(0),
    {
        if !self.rb.is_dynamic() {
            return Ratio::zero();
        }
        let inv_inertia = self.angular_inertia.inverse;
        match self.locked_axes {
            Some(locked_axes) => locked_axes.apply_to_rotation(inv_inertia),
            None => inv_inertia,
        }
    }

    /// Returns the current position of the body: the sum of [`Position`] and
    /// the adjusted [`AccumulatedTranslation`].
    pub fn current_position(&self) -> (r: Vector)
        requires
            self.wf(),
            q_current_position(
                self.position.0@,
                self.accumulated_translation.0@,
                self.previous_rotation.0@,
                self.rotation@,
                self.center_of_mass.0@,
            ) is Some,
        ensures
            Some(r@) == q_current_position(
                self.position.0@,
                self.accumulated_translation.0@,
                self.previous_rotation.0@,
                self.rotation@,
                self.center_of_mass.0@,
            ),
            r.wf(),
    {
        let t = match get_pos_translation(
            &self.accumulated_translation,
            &self.previous_rotation,
            &self.rotation,
            &self.center_of_mass,
        ) {
            Some(v) => v,
            None => unreached(),
        };
        match self.position.0.checked_add(&t) {
            Some(v) => v,
            None => unreached(),
        }
    }

    /// Returns the dominance of the body: `i8::MAX` for a non-dynamic body,
    /// else the configured value, or `0` if unset.
    pub fn dominance(&self) -> (r: i8)
        ensures
            r as int == spec_dominance(self.rb, self.dominance),
            self.rb != RigidBody::Dynamic ==> r == i8::MAX,
    {
        if !self.rb.is_dynamic() {
            i8::MAX
        } else {
            match self.dominance {
                Some(dominance) => dominance.0,
                None => 0,
            }
        }
    }
}

/// A read-only view of one rigid body's record.
#[derive(Clone, Copy, PartialEq, Eq, Debug)]
pub struct RigidBodyQueryReadOnlyItem {
    pub entity: u64,
    pub rb: RigidBody,
    pub position: Position,
    pub rotation: Rotation,
    pub previous_rotation: PreviousRotation,
    pub accumulated_translation: AccumulatedTranslation,
    pub linear_velocity: LinearVelocity,
    pub pre_solve_linear_velocity: PreSolveLinearVelocity,
    pub angular_velocity: AngularVelocity,
    pub pre_solve_angular_velocity: PreSolveAngularVelocity,
    pub mass: Mass,
    pub angular_inertia: AngularInertia,
    pub center_of_mass: CenterOfMass,
    pub friction: Friction,
    pub restitution: Restitution,
    pub locked_axes: Option<LockedAxes>,
    pub dominance: Option<Dominance>,
    pub time_sleeping: TimeSleeping,
    pub is_sleeping: bool,
    pub is_sensor: bool,
}

impl RigidBodyQueryReadOnlyItem {
    pub open spec fn wf(self) -> bool {
        &&& self.position.0.wf()
        &&& self.rotation.wf()
        &&& self.previous_rotation.0.wf()
        &&& self.accumulated_translation.0.wf()
        &&& self.linear_velocity.0.wf()
        &&& self.pre_solve_linear_velocity.0.wf()
        &&& self.angular_velocity.0.wf()
        &&& self.pre_solve_angular_velocity.0.wf()
        &&& self.mass.wf()
        &&& self.angular_inertia.wf()
        &&& self.center_of_mass.0.wf()
        &&& self.friction.coefficient.wf()
        &&& self.restitution.coefficient.wf()
        &&& self.time_sleeping.0.wf()
    }

    /// Computes the velocity at the given `point` relative to the center of
    /// mass.
    pub fn velocity_at_point(&self, point: Vector) -> (r: Vector)
        requires
            self.wf(),
            point.wf(),
            q_velocity_at_point(self.linear_velocity.0@, self.angular_velocity.0@, point@)
                is Some,
        ensures
            Some(r@) == q_velocity_at_point(
                self.linear_velocity.0@,
                self.angular_velocity.0@,
                point@,
            ),
            r.wf(),
    {
        let scaled = match point.perp().checked_scale(&self.angular_velocity.0) {
            Some(v) => v,
            None => unreached(),
        };
        match self.linear_velocity.0.checked_add(&scaled) {
            Some(v) => v,
            None => unreached(),
        }
    }

    /// Returns the mass. If the rigid body is not dynamic, the returned mass
    /// is infinite.
    pub fn mass(&self) -> (r: Mass)
        requires
            self.wf(),
        ensures
            self.rb == RigidBody::Dynamic ==> r == self.mass,
            self.rb != RigidBody::Dynamic ==> r.spec_value() is None && r.inverse@ == rat_int(0),
            r.wf(),
    {
        if self.rb.is_dynamic() {
            self.mass
        } else {
            Mass::infinity()
        }
    }

    /// Computes the effective inverse mass, taking into account any
    /// translation locking. Exactly zero for a non-dynamic body.
    pub fn effective_inverse_mass(&self) -> (r: Vector)
        requires
            self.wf(),
        ensures
            r@ == spec_effective_inv_mass(self.rb, self.mass.inverse@, self.locked_axes),
            r.wf(),
            self.rb != RigidBody::Dynamic ==> r@ == vec_zero(),
    {
        if !self.rb.is_dynamic() {
            return Vector::zero();
        }
        let inv_mass = Vector::splat(self.mass.inverse);
        match self.locked_axes {
            Some(locked_axes) => locked_axes.apply_to_vec(inv_mass),
            None => inv_mass,
        }
    }

    /// Returns the local angular inertia. If the rigid body is not dynamic,
    /// the returned angular inertia is infinite.
    pub fn angular_inertia(&self) -> (r: AngularInertia)
        requires
            self.wf(),
        ensures
            self.rb == RigidBody::Dynamic ==> r == self.angular_inertia,
            self.rb != RigidBody::Dynamic ==> r.spec_value() is None && r.inverse@ == rat_int(0),
            r.wf(),
    {
        if self.rb.is_dynamic() {
            self.angular_inertia
        } else {
            AngularInertia::infinity()
        }
    }

    /// Computes the effective world-space angular inertia, taking into
    /// account any rotation locking. Infinite for a non-dynamic body.
    pub fn effective_world_angular_intertia(&self) -> (r: AngularInertia)
        requires
            self.wf(),
        ensures
            self.rb != RigidBody::Dynamic ==> r.spec_value() is None && r.inverse@ == rat_int(0),
            self.rb == RigidBody::Dynamic ==> r.inverse@ == spec_effective_inv_inertia(
                self.rb,
                self.angular_inertia.inverse@,
                self.locked_axes,
            ) && r.spec_value() == Some(
                rat_recip_or_zero(
                    spec_effective_inv_inertia(
                        self.rb,
                        self.angular_inertia.inverse@,
                        self.locked_axes,
                    ),
                ),
            ),
            r.wf(),
    {
        if !self.rb.is_dynamic() {
            return AngularInertia::infinity();
        }
        let inv_inertia = self.angular_inertia.inverse;
        let inv_inertia = match self.locked_axes {
            Some(locked_axes) => locked_axes.apply_to_rotation(inv_inertia),
            None => inv_inertia,
        };
        AngularInertia::from_inverse(inv_inertia)
    }

    /// Returns the current position of the body: the sum of [`Position`] and
    /// the adjusted [`AccumulatedTranslation`].
    pub fn current_position(&self) -> (r: Vector)
        requires
            self.wf(),
            q_current_position(
                self.position.0@,
                self.accumulated_translation.0@,
                self.previous_rotation.0@,
                self.rotation@,
                self.center_of_mass.0@,
            ) is Some,
        ensures
            Some(r@) == q_current_position(
                self.position.0@,
                self.accumulated_translation.0@,
                self.previous_rotation.0@,
                self.rotation@,
                self.center_of_mass.0@,
            ),
            r.wf(),
    {
        let t = match get_pos_translation(
            &self.accumulated_translation,
            &self.previous_rotation,
            &self.rotation,
            &self.center_of_mass,
        ) {
            Some(v) => v,
            None => unreached(),
        };
        match self.position.0.checked_add(&t) {
            Some(v) => v,
            None => unreached(),
        }
    }

    /// Returns the dominance of the body: `i8::MAX` for a non-dynamic body,
    /// else the configured value, or `0` if unset.
    pub fn dominance(&self) -> (r: i8)
        ensures
            r as int == spec_dominance(self.rb, self.dominance),
            self.rb != RigidBody::Dynamic ==> r == i8::MAX,
    {
        if !self.rb.is_dynamic() {
            i8::MAX
        } else {
            match self.dominance {
                Some(dominance) => dominance.0,
                None => 0,
            }
        }
    }
}

/// The aggregate mass, angular inertia and center of mass of one body.
#[derive(Clone, Copy, PartialEq, Eq, Debug)]
pub struct MassPropertiesQuery {
    pub mass: Mass,
    pub angular_inertia: AngularInertia,
    pub center_of_mass: CenterOfMass,
}

/// The local mass properties a collider contributes to a body, computed by an
/// external shape module and expressed in the body's frame.
#[derive(Clone, Copy, PartialEq, Eq, Debug)]
pub struct ColliderMassProperties {
    pub mass: Mass,
    pub angular_inertia: AngularInertia,
    pub center_of_mass: CenterOfMass,
}

impl Default for ColliderMassProperties {
    /// Zero mass, zero inertia, center of mass at the origin.
    fn default() -> (r: ColliderMassProperties)
        ensures
            r.mp() == (MassProps { mass: rat_int(0), com: vec_zero(), inertia: rat_int(0) }),
            r.wf(),
    {
        ColliderMassProperties {
            mass: Mass::default(),
            angular_inertia: AngularInertia::default(),
            center_of_mass: CenterOfMass::default(),
        }
    }
}

/// The mathematical value of a set of mass properties.
pub struct MassProps {
    pub mass: Rat,
    pub com: Vec2,
    pub inertia: Rat,
}

pub open spec fn mass_props_wf(p: MassProps) -> bool {
    rat_wf(p.mass) && vec_wf(p.com) && rat_wf(p.inertia)
}

/// A composition is degenerate when the two masses sum to zero or less; both
/// operations then leave the aggregate unchanged.
pub open spec fn combine_degenerate(p1: MassProps, p2: MassProps) -> bool {
    rat_le(rat_add(p1.mass, p2.mass), rat_int(0))
}

/// What attaching `p2` to `p1` computes, step by step: the summed mass, the
/// mass-weighted center of mass, and both inertias shifted to it by the
/// parallel-axis theorem and summed. `None` when a step leaves the
/// representable range.
pub open spec fn combine_steps(p1: MassProps, p2: MassProps) -> Option<MassProps> {
    let m = qadd(Some(p1.mass), Some(p2.mass));
    let cx = qdiv(
        qadd(qmul(Some(p1.com.x), Some(p1.mass)), qmul(Some(p2.com.x), Some(p2.mass))),
        m,
    );
    let cy = qdiv(
        qadd(qmul(Some(p1.com.y), Some(p1.mass)), qmul(Some(p2.com.y), Some(p2.mass))),
        m,
    );
    match (m, cx, cy) {
        (Some(mm), Some(ccx), Some(ccy)) => {
            let newcom = Vec2 { x: ccx, y: ccy };
            let i1 = match qv_sub(Some(newcom), Some(p1.com)) {
                Some(d1) => q_shifted(p1.inertia, p1.mass, d1),
                None => None,
            };
            let i2 = match qv_sub(Some(newcom), Some(p2.com)) {
                Some(d2) => q_shifted(p2.inertia, p2.mass, d2),
                None => None,
            };
            match qadd(i1, i2) {
                Some(ii) => Some(MassProps { mass: mm, com: newcom, inertia: ii }),
                None => None,
            }
        },
        _ => None,
    }
}

/// What detaching `p2` from `p1` computes: the difference of the masses
/// clamped at zero; the center of mass re-derived by subtraction when the
/// remaining mass exceeds a small epsilon, else kept; and both inertias
/// shifted to the new center and subtracted.
pub open spec fn remove_steps(p1: MassProps, p2: MassProps) -> Option<MassProps> {
    match q_sub_clamped(Some(p1.mass), Some(p2.mass)) {
        Some(nm) => {
            let big = rat_lt(rat_eps(), nm);
            let cx = if big {
                qdiv(
                    qsub(qmul(Some(p1.com.x), Some(p1.mass)), qmul(Some(p2.com.x), Some(p2.mass))),
                    Some(nm),
                )
            } else {
                Some(p1.com.x)
            };
            let cy = if big {
                qdiv(
                    qsub(qmul(Some(p1.com.y), Some(p1.mass)), qmul(Some(p2.com.y), Some(p2.mass))),
                    Some(nm),
                )
            } else {
                Some(p1.com.y)
            };
            match (cx, cy) {
                (Some(ccx), Some(ccy)) => {
                    let newcom = Vec2 { x: ccx, y: ccy };
                    let i1 = match qv_sub(Some(newcom), Some(p1.com)) {
                        Some(d1) => q_shifted(p1.inertia, p1.mass, d1),
                        None => None,
                    };
                    let i2 = match qv_sub(Some(newcom), Some(p2.com)) {
                        Some(d2) => q_shifted(p2.inertia, p2.mass, d2),
                        None => None,
                    };
                    match qsub(i1, i2) {
                        Some(ii) => Some(MassProps { mass: nm, com: newcom, inertia: ii }),
                        None => None,
                    }
                },
                _ => None,
            }
        },
        None => None,
    }
}

impl ColliderMassProperties {
    pub open spec fn wf(self) -> bool {
        &&& self.mass.wf()
        &&& self.mass.is_finite()
        &&& self.angular_inertia.wf()
        &&& self.angular_inertia.is_finite()
        &&& self.center_of_mass.0.wf()
    }

    /// The mathematical value of this contribution.
    pub open spec fn mp(self) -> MassProps {
        MassProps {
            mass: self.mass.spec_value()->Some_0,
            com: self.center_of_mass.0@,
            inertia: self.angular_inertia.spec_value()->Some_0,
        }
    }
}

impl MassPropertiesQuery {
    pub open spec fn wf(self) -> bool {
        &&& self.mass.wf()
        &&& self.mass.is_finite()
        &&& self.angular_inertia.wf()
        &&& self.angular_inertia.is_finite()
        &&& self.center_of_mass.0.wf()
    }

    /// The mathematical value of this aggregate.
    pub open spec fn mp(self) -> MassProps {
        MassProps {
            mass: self.mass.spec_value()->Some_0,
            com: self.center_of_mass.0@,
            inertia: self.angular_inertia.spec_value()->Some_0,
        }
    }

    /// Attach a shape: fold the contribution `rhs` into this aggregate.
    ///
    /// A composition whose total mass is not positive is rejected silently,
    /// and so is one whose exact result leaves the representable range; in
    /// both cases the aggregate is unchanged. Otherwise every field is
    /// overwritten exactly as [`combine_steps`] states, with the cached
    /// inverses refreshed.
    pub fn add_assign(&mut self, rhs: &ColliderMassProperties)
        requires
            old(self).wf(),
            rhs.wf(),
        ensures
            final(self).wf(),
            ({
                let p1 = old(self).mp();
                let p2 = rhs.mp();
                if combine_degenerate(p1, p2) {
                    *final(self) == *old(self)
                } else {
                    match combine_steps(p1, p2) {
                        Some(p) => {
                            &&& final(self).mass.spec_value() == Some(p.mass)
                            &&& final(self).mass.inverse@ == rat_recip_or_zero(p.mass)
                            &&& final(self).angular_inertia.spec_value() == Some(p.inertia)
                            &&& final(self).angular_inertia.inverse@ == rat_recip_or_zero(
                                p.inertia,
                            )
                            &&& final(self).center_of_mass.0@ == p.com
                        },
                        None => *final(self) == *old(self),
                    }
                }
            }),
    {
        let m1 = self.mass.finite_value();
        let m2 = rhs.mass.finite_value();
        proof {
            assert(rat_le(m1@, rat_neg(m2@)) <==> rat_le(rat_add(m1@, m2@), rat_int(0)))
                by (nonlinear_arith);
        }
        if m1.le(&m2.neg()) {
            return ;
        }
        let new_mass = match m1.checked_add(&m2) {
            Some(v) => v,
            None => {
                return ;
            },
        };
        let u1x = match self.center_of_mass.0.x.checked_mul(&m1) {
            Some(v) => v,
            None => {
                return ;
            },
        };
        let u2x = match rhs.center_of_mass.0.x.checked_mul(&m2) {
            Some(v) => v,
            None => {
                return ;
            },
        };
        let tx = match u1x.checked_add(&u2x) {
            Some(v) => v,
            None => {
                return ;
            },
        };
        let cx = match tx.checked_div(&new_mass) {
            Some(v) => v,
            None => {
                return ;
            },
        };
        let u1y = match self.center_of_mass.0.y.checked_mul(&m1) {
            Some(v) => v,
            None => {
                return ;
            },
        };
        let u2y = match rhs.center_of_mass.0.y.checked_mul(&m2) {
            Some(v) => v,
            None => {
                return ;
            },
        };
        let ty = match u1y.checked_add(&u2y) {
            Some(v) => v,
            None => {
                return ;
            },
        };
        let cy = match ty.checked_div(&new_mass) {
            Some(v) => v,
            None => {
                return ;
            },
        };
        let new_com = Vector { x: cx, y: cy };
        let d1 = match new_com.checked_sub(&self.center_of_mass.0) {
            Some(v) => v,
            None => {
                return ;
            },
        };
        let d2 = match new_com.checked_sub(&rhs.center_of_mass.0) {
            Some(v) => v,
            None => {
                return ;
            },
        };
        let i1 = match self.angular_inertia.shifted(&m1, &d1) {
            Some(v) => v,
            None => {
                return ;
            },
        };
        let i2 = match rhs.angular_inertia.shifted(&m2, &d2) {
            Some(v) => v,
            None => {
                return ;
            },
        };
        let new_inertia = match i1.checked_add(&i2) {
            Some(v) => v,
            None => {
                return ;
            },
        };
        proof {
            lemma_pos_mul(m1@.d, m2@.d);
            lemma_q_norm_some(rat_add(m1@, m2@));
        }
        self.mass.set(new_mass);
        self.angular_inertia.set(new_inertia);
        self.center_of_mass.0 = new_com;
    }

    /// Detach a shape: take the contribution `rhs` back out of this
    /// aggregate.
    ///
    /// Guarded like [`Self::add_assign`]; the remaining mass is clamped at
    /// zero, and when it does not exceed a small epsilon the old center of
    /// mass is kept instead of dividing by a near-zero mass. Every field is
    /// otherwise overwritten exactly as [`remove_steps`] states. No check is
    /// made that `rhs` was ever part of the aggregate.
    pub fn sub_assign(&mut self, rhs: &ColliderMassProperties)
        requires
            old(self).wf(),
            rhs.wf(),
        ensures
            final(self).wf(),
            ({
                let p1 = old(self).mp();
                let p2 = rhs.mp();
                if combine_degenerate(p1, p2) {
                    *final(self) == *old(self)
                } else {
                    match remove_steps(p1, p2) {
                        Some(p) => {
                            &&& final(self).mass.spec_value() == Some(p.mass)
                            &&& final(self).mass.inverse@ == rat_recip_or_zero(p.mass)
                            &&& final(self).angular_inertia.spec_value() == Some(p.inertia)
                            &&& final(self).angular_inertia.inverse@ == rat_recip_or_zero(
                                p.inertia,
                            )
                            &&& final(self).center_of_mass.0@ == p.com
                        },
                        None => *final(self) == *old(self),
                    }
                }
            }),
    {
        let m1 = self.mass.finite_value();
        let m2 = rhs.mass.finite_value();
        proof {
            assert(rat_le(m1@, rat_neg(m2@)) <==> rat_le(rat_add(m1@, m2@), rat_int(0)))
                by (nonlinear_arith);
        }
        if m1.le(&m2.neg()) {
            return ;
        }
        let new_mass = match m1.checked_sub_clamped(&m2) {
            Some(v) => v,
            None => {
                return ;
            },
        };
        let eps = Ratio::epsilon();
        let big = eps.lt(&new_mass);
        let cx = if big {
            let u1x = match self.center_of_mass.0.x.checked_mul(&m1) {
                Some(v) => v,
                None => {
                    return ;
                },
            };
            let u2x = match rhs.center_of_mass.0.x.checked_mul(&m2) {
                Some(v) => v,
                None => {
                    return ;
                },
            };
            let tx = match u1x.checked_sub(&u2x) {
                Some(v) => v,
                None => {
                    return ;
                },
            };
            match tx.checked_div(&new_mass) {
                Some(v) => v,
                None => {
                    return ;
                },
            }
        } else {
            self.center_of_mass.0.x
        };
        let cy = if big {
            let u1y = match self.center_of_mass.0.y.checked_mul(&m1) {
                Some(v) => v,
                None => {
                    return ;
                },
            };
            let u2y = match rhs.center_of_mass.0.y.checked_mul(&m2) {
                Some(v) => v,
                None => {
                    return ;
                },
            };
            let ty = match u1y.checked_sub(&u2y) {
                Some(v) => v,
                None => {
                    return ;
                },
            };
            match ty.checked_div(&new_mass) {
                Some(v) => v,
                None => {
                    return ;
                },
            }
        } else {
            self.center_of_mass.0.y
        };
        let new_com = Vector { x: cx, y: cy };
        let d1 = match new_com.checked_sub(&self.center_of_mass.0) {
            Some(v) => v,
            None => {
                return ;
            },
        };
        let d2 = match new_com.checked_sub(&rhs.center_of_mass.0) {
            Some(v) => v,
            None => {
                return ;
            },
        };
        let i1 = match self.angular_inertia.shifted(&m1, &d1) {
            Some(v) => v,
            None => {
                return ;
            },
        };
        let i2 = match rhs.angular_inertia.shifted(&m2, &d2) {
            Some(v) => v,
            None => {
                return ;
            },
        };
        let new_inertia = match i1.checked_sub(&i2) {
            Some(v) => v,
            None => {
                return ;
            },
        };
        self.mass.set(new_mass);
        self.angular_inertia.set(new_inertia);
        self.center_of_mass.0 = new_com;
    }
}

} // verus!
