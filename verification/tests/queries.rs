use physics_prep::components::{
    AccumulatedTranslation, AngularInertia, AngularVelocity, CenterOfMass, Dominance, Friction,
    LinearVelocity, LockedAxes, Mass, Position, PreSolveAngularVelocity, PreSolveLinearVelocity,
    PreviousRotation, Restitution, RigidBody, TimeSleeping,
};
use physics_prep::prepare::clamp_restitution;
use physics_prep::rational::Ratio;
use physics_prep::rotation::Rotation;
use physics_prep::vector::Vector;
use physics_prep::world_query::{RigidBodyQueryItem, RigidBodyQueryReadOnlyItem};

fn item(rb: RigidBody) -> RigidBodyQueryItem {
    RigidBodyQueryItem {
        entity: 0,
        rb,
        position: Position::default(),
        rotation: Rotation::default(),
        previous_rotation: PreviousRotation::default(),
        accumulated_translation: AccumulatedTranslation::default(),
        linear_velocity: LinearVelocity(Vector::zero()),
        pre_solve_linear_velocity: PreSolveLinearVelocity(Vector::zero()),
        angular_velocity: AngularVelocity(Ratio::zero()),
        pre_solve_angular_velocity: PreSolveAngularVelocity(Ratio::zero()),
        mass: Mass::new(Ratio::new(2, 1)),
        angular_inertia: AngularInertia::new(Ratio::new(4, 1)),
        center_of_mass: CenterOfMass::default(),
        friction: Friction { coefficient: Ratio::new(1, 2) },
        restitution: Restitution::default(),
        locked_axes: None,
        dominance: None,
        time_sleeping: TimeSleeping(Ratio::zero()),
        is_sleeping: false,
        is_sensor: false,
    }
}

fn read_only(rb: RigidBody) -> RigidBodyQueryReadOnlyItem {
    let i = item(rb);
    RigidBodyQueryReadOnlyItem {
        entity: i.entity,
        rb: i.rb,
        position: i.position,
        rotation: i.rotation,
        previous_rotation: i.previous_rotation,
        accumulated_translation: i.accumulated_translation,
        linear_velocity: i.linear_velocity,
        pre_solve_linear_velocity: i.pre_solve_linear_velocity,
        angular_velocity: i.angular_velocity,
        pre_solve_angular_velocity: i.pre_solve_angular_velocity,
        mass: i.mass,
        angular_inertia: i.angular_inertia,
        center_of_mass: i.center_of_mass,
        friction: i.friction,
        restitution: i.restitution,
        locked_axes: i.locked_axes,
        dominance: i.dominance,
        time_sleeping: i.time_sleeping,
        is_sleeping: i.is_sleeping,
        is_sensor: i.is_sensor,
    }
}

#[test]
fn velocity_at_point_adds_the_angular_term() {
    // linear (1, 2), angular 3, point (4, 5): perp(point) = (-5, 4), so the
    // result is (1 - 15, 2 + 12) = (-14, 14).
    let mut b = item(RigidBody::Dynamic);
    b.linear_velocity = LinearVelocity(Vector::new(Ratio::new(1, 1), Ratio::new(2, 1)));
    b.angular_velocity = AngularVelocity(Ratio::new(3, 1));
    let v = b.velocity_at_point(Vector::new(Ratio::new(4, 1), Ratio::new(5, 1)));
    assert!(v.x.eq_value(&Ratio::new(-14, 1)));
    assert!(v.y.eq_value(&Ratio::new(14, 1)));

    let mut r = read_only(RigidBody::Dynamic);
    r.linear_velocity = LinearVelocity(Vector::new(Ratio::new(1, 1), Ratio::new(2, 1)));
    r.angular_velocity = AngularVelocity(Ratio::new(3, 1));
    let v = r.velocity_at_point(Vector::new(Ratio::new(4, 1), Ratio::new(5, 1)));
    assert!(v.x.eq_value(&Ratio::new(-14, 1)));
    assert!(v.y.eq_value(&Ratio::new(14, 1)));
}

#[test]
fn current_position_adjusts_for_the_rotation_delta() {
    // position (1, 1), pending translation (1, 0), center of mass (1, 0);
    // the rotation moved from the identity to a quarter turn, so the pending
    // translation is adjusted by prev*com - rot*com = (1,0) - (0,1).
    let mut b = item(RigidBody::Dynamic);
    b.position = Position(Vector::new(Ratio::new(1, 1), Ratio::new(1, 1)));
    b.accumulated_translation =
        AccumulatedTranslation(Vector::new(Ratio::new(1, 1), Ratio::zero()));
    b.previous_rotation = PreviousRotation(Rotation::default());
    b.rotation = Rotation::from_cos_sin(Ratio::zero(), Ratio::one());
    b.center_of_mass = CenterOfMass(Vector::new(Ratio::new(1, 1), Ratio::zero()));

    let p = b.current_position();
    assert!(p.x.eq_value(&Ratio::new(3, 1)));
    assert!(p.y.eq_value(&Ratio::zero()));
}

#[test]
fn effective_inv_mass_honors_kind_and_locking() {
    // Dynamic, mass 2: the inverse mass splats to (1/2, 1/2).
    let b = item(RigidBody::Dynamic);
    let v = b.effective_inv_mass();
    assert!(v.x.eq_value(&Ratio::new(1, 2)));
    assert!(v.y.eq_value(&Ratio::new(1, 2)));

    // A locked x-translation axis is zeroed.
    let mut b = item(RigidBody::Dynamic);
    b.locked_axes = Some(LockedAxes::new().lock_translation_x());
    let v = b.effective_inv_mass();
    assert!(v.x.eq_value(&Ratio::zero()));
    assert!(v.y.eq_value(&Ratio::new(1, 2)));

    // Non-dynamic bodies: exactly zero, whatever is locked.
    for rb in [RigidBody::Kinematic, RigidBody::Static] {
        let mut b = item(rb);
        b.locked_axes = Some(LockedAxes::new().lock_translation_y());
        let v = b.effective_inv_mass();
        assert!(v.x.eq_value(&Ratio::zero()));
        assert!(v.y.eq_value(&Ratio::zero()));
        let r = read_only(rb);
        let v = r.effective_inverse_mass();
        assert!(v.x.eq_value(&Ratio::zero()));
        assert!(v.y.eq_value(&Ratio::zero()));
    }
}

#[test]
fn effective_world_inv_inertia_honors_kind_and_locking() {
    // Dynamic, inertia 4: the inverse is 1/4.
    let b = item(RigidBody::Dynamic);
    assert!(b.effective_world_inv_inertia().eq_value(&Ratio::new(1, 4)));

    // A locked rotation axis is zeroed.
    let mut b = item(RigidBody::Dynamic);
    b.locked_axes = Some(LockedAxes::new().lock_rotation());
    assert!(b.effective_world_inv_inertia().eq_value(&Ratio::zero()));

    // Non-dynamic bodies: exactly zero.
    for rb in [RigidBody::Kinematic, RigidBody::Static] {
        let b = item(rb);
        assert!(b.effective_world_inv_inertia().eq_value(&Ratio::zero()));
    }
}

#[test]
fn effective_world_angular_intertia_caches_the_inverse() {
    // Dynamic, inertia 4: value 4, inverse 1/4.
    let r = read_only(RigidBody::Dynamic);
    let i = r.effective_world_angular_intertia();
    assert!(i.value().unwrap().eq_value(&Ratio::new(4, 1)));
    assert!(i.inverse.eq_value(&Ratio::new(1, 4)));

    // Non-dynamic: the infinite sentinel (inverse zero, no finite value).
    let r = read_only(RigidBody::Static);
    let i = r.effective_world_angular_intertia();
    assert!(i.value().is_none());
    assert!(i.inverse.eq_value(&Ratio::zero()));
}

#[test]
fn mass_and_angular_inertia_accessors_substitute_infinity() {
    let r = read_only(RigidBody::Dynamic);
    assert!(r.mass().value().unwrap().eq_value(&Ratio::new(2, 1)));
    assert!(r.angular_inertia().value().unwrap().eq_value(&Ratio::new(4, 1)));

    for rb in [RigidBody::Kinematic, RigidBody::Static] {
        let r = read_only(rb);
        assert!(r.mass().value().is_none());
        assert!(r.mass().inverse.eq_value(&Ratio::zero()));
        assert!(r.angular_inertia().value().is_none());
        assert!(r.angular_inertia().inverse.eq_value(&Ratio::zero()));
    }
}

#[test]
fn dominance_resolves_default_and_non_dynamic() {
    let mut b = item(RigidBody::Dynamic);
    assert_eq!(b.dominance(), 0);
    b.dominance = Some(Dominance(-7));
    assert_eq!(b.dominance(), -7);

    for rb in [RigidBody::Kinematic, RigidBody::Static] {
        let mut b = item(rb);
        b.dominance = Some(Dominance(-7));
        assert_eq!(b.dominance(), i8::MAX);
        let r = read_only(rb);
        assert_eq!(r.dominance(), i8::MAX);
    }
}

#[test]
fn clamp_restitution_clamps_into_the_unit_interval() {
    // Below zero: clamped up to 0.
    let mut r = Restitution { coefficient: Ratio::new(-1, 2) };
    clamp_restitution(&mut r);
    assert!(r.coefficient.eq_value(&Ratio::zero()));

    // Above one: clamped down to 1.
    let mut r = Restitution { coefficient: Ratio::new(3, 2) };
    clamp_restitution(&mut r);
    assert!(r.coefficient.eq_value(&Ratio::one()));

    // Inside: unchanged, exactly.
    let mut r = Restitution { coefficient: Ratio::new(3, 10) };
    clamp_restitution(&mut r);
    assert_eq!(r.coefficient, Ratio::new(3, 10));

    // The pass is idempotent.
    let mut r = Restitution { coefficient: Ratio::new(7, 2) };
    clamp_restitution(&mut r);
    let once = r.coefficient;
    clamp_restitution(&mut r);
    assert_eq!(r.coefficient, once);
}
