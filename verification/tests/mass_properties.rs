use physics_prep::components::{AngularInertia, CenterOfMass, Mass};
use physics_prep::rational::Ratio;
use physics_prep::vector::Vector;
use physics_prep::world_query::{ColliderMassProperties, MassPropertiesQuery};

fn approx(r: &Ratio) -> f64 {
    r.num() as f64 / r.den() as f64
}

fn assert_close(r: &Ratio, expected: f64, eps: f64) {
    let got = approx(r);
    assert!(
        (got - expected).abs() <= eps,
        "expected {} within {}, got {}",
        expected,
        eps,
        got
    );
}

#[test]
fn mass_properties_add_assign_works() {
    // An aggregate with mass 1.6 centered at (-3.8, 0).
    let mut mass_props = MassPropertiesQuery {
        mass: Mass::new(Ratio::new(16, 10)),
        angular_inertia: AngularInertia::default(),
        center_of_mass: CenterOfMass(Vector::new(Ratio::new(-38, 10), Ratio::zero())),
    };

    // Collider mass properties that will be added to the existing mass
    // properties: mass 8.1 centered at (1.2, 1).
    let collider_mass_props = ColliderMassProperties {
        mass: Mass::new(Ratio::new(81, 10)),
        center_of_mass: CenterOfMass(Vector::new(Ratio::new(12, 10), Ratio::new(1, 1))),
        ..Default::default()
    };

    mass_props.add_assign(&collider_mass_props);

    // Test if values are correct
    // (reference values were calculated by hand)
    let value = mass_props.mass.value().unwrap();
    assert!(value.eq_value(&Ratio::new(97, 10)));
    assert!(mass_props.mass.inverse.eq_value(&Ratio::new(10, 97)));
    assert_close(&mass_props.center_of_mass.0.x, 0.375_257, 0.000_001);
    assert_close(&mass_props.center_of_mass.0.y, 0.835_051, 0.000_001);
}

#[test]
fn mass_properties_sub_assign_works() {
    // An aggregate with mass 8.1 centered at (-3.8, 0).
    let mut mass_props = MassPropertiesQuery {
        mass: Mass::new(Ratio::new(81, 10)),
        angular_inertia: AngularInertia::default(),
        center_of_mass: CenterOfMass(Vector::new(Ratio::new(-38, 10), Ratio::zero())),
    };

    // Collider mass properties that will be subtracted from the existing mass
    // properties: mass 1.6 centered at (1.2, 1).
    let collider_mass_props = ColliderMassProperties {
        mass: Mass::new(Ratio::new(16, 10)),
        center_of_mass: CenterOfMass(Vector::new(Ratio::new(12, 10), Ratio::new(1, 1))),
        ..Default::default()
    };

    mass_props.sub_assign(&collider_mass_props);

    // Test if values are correct.
    // The reference values were calculated by hand.
    // The center of mass is computed as:
    // (com1 * mass1 - com2 * mass2) / (mass1 - mass2).max(0.0)
    let value = mass_props.mass.value().unwrap();
    assert!(value.eq_value(&Ratio::new(65, 10)));
    assert!(mass_props.mass.inverse.eq_value(&Ratio::new(10, 65)));
    assert_close(&mass_props.center_of_mass.0.x, -5.030_769, 0.000_001);
    assert_close(&mass_props.center_of_mass.0.y, -0.246_153, 0.000_001);
}

#[test]
fn mass_properties_combine_remove_round_trip_is_exact() {
    // Combining a contribution and removing it again reproduces the original
    // aggregate exactly: mass, inverse mass, center of mass and inertia.
    let mut mass_props = MassPropertiesQuery {
        mass: Mass::new(Ratio::new(2, 1)),
        angular_inertia: AngularInertia::new(Ratio::new(5, 1)),
        center_of_mass: CenterOfMass(Vector::new(Ratio::new(1, 1), Ratio::new(1, 1))),
    };
    let contribution = ColliderMassProperties {
        mass: Mass::new(Ratio::new(3, 1)),
        angular_inertia: AngularInertia::new(Ratio::new(7, 1)),
        center_of_mass: CenterOfMass(Vector::new(Ratio::new(4, 1), Ratio::new(-1, 1))),
    };

    mass_props.add_assign(&contribution);
    mass_props.sub_assign(&contribution);

    assert!(mass_props.mass.value().unwrap().eq_value(&Ratio::new(2, 1)));
    assert!(mass_props.mass.inverse.eq_value(&Ratio::new(1, 2)));
    assert!(mass_props
        .angular_inertia
        .value()
        .unwrap()
        .eq_value(&Ratio::new(5, 1)));
    assert!(mass_props.center_of_mass.0.x.eq_value(&Ratio::new(1, 1)));
    assert!(mass_props.center_of_mass.0.y.eq_value(&Ratio::new(1, 1)));
}

#[test]
fn mass_properties_degenerate_composition_is_a_no_op() {
    // A zero aggregate and a zero contribution sum to a non-positive mass,
    // so both operations leave the aggregate untouched.
    let mut mass_props = MassPropertiesQuery {
        mass: Mass::new(Ratio::zero()),
        angular_inertia: AngularInertia::default(),
        center_of_mass: CenterOfMass(Vector::new(Ratio::new(7, 2), Ratio::zero())),
    };
    let zero = ColliderMassProperties::default();

    mass_props.add_assign(&zero);
    assert!(mass_props.mass.value().unwrap().eq_value(&Ratio::zero()));
    assert!(mass_props.center_of_mass.0.x.eq_value(&Ratio::new(7, 2)));

    mass_props.sub_assign(&zero);
    assert!(mass_props.mass.value().unwrap().eq_value(&Ratio::zero()));
    assert!(mass_props.center_of_mass.0.x.eq_value(&Ratio::new(7, 2)));
}

#[test]
fn mass_properties_remove_to_zero_keeps_center_of_mass() {
    // Removing the body's whole mass drives it to zero; the epsilon guard
    // then keeps the old center of mass instead of dividing by zero.
    let mut mass_props = MassPropertiesQuery {
        mass: Mass::new(Ratio::new(3, 1)),
        angular_inertia: AngularInertia::new(Ratio::new(2, 1)),
        center_of_mass: CenterOfMass(Vector::new(Ratio::new(5, 1), Ratio::new(-2, 1))),
    };
    let all_of_it = ColliderMassProperties {
        mass: Mass::new(Ratio::new(3, 1)),
        angular_inertia: AngularInertia::new(Ratio::new(2, 1)),
        center_of_mass: CenterOfMass(Vector::new(Ratio::new(1, 1), Ratio::new(1, 1))),
    };

    mass_props.sub_assign(&all_of_it);

    assert!(mass_props.mass.value().unwrap().eq_value(&Ratio::zero()));
    assert!(mass_props.mass.inverse.eq_value(&Ratio::zero()));
    assert!(mass_props.center_of_mass.0.x.eq_value(&Ratio::new(5, 1)));
    assert!(mass_props.center_of_mass.0.y.eq_value(&Ratio::new(-2, 1)));
}
