use physics_prep::components::{GlobalTransform, PreviousRotation, Position, Transform};
use physics_prep::prepare::{init_transforms, PrepareConfig};
use physics_prep::rational::Ratio;
use physics_prep::rotation::Rotation;
use physics_prep::vector::Vector;

/// One entity's transform-related record.
#[derive(Clone, Copy, Debug)]
struct EntityState {
    transform: Transform,
    global_transform: GlobalTransform,
    position: Position,
    rotation: Rotation,
    previous_rotation: Option<PreviousRotation>,
}

fn vec(xn: i64, xd: i64, yn: i64, yd: i64) -> Vector {
    Vector::new(Ratio::new(xn, xd), Ratio::new(yn, yd))
}

fn rot(cn: i64, cd: i64, sn: i64, sd: i64) -> Rotation {
    Rotation::from_cos_sin(Ratio::new(cn, cd), Ratio::new(sn, sd))
}

fn unit_scale() -> Vector {
    Vector::new(Ratio::one(), Ratio::one())
}

/// Spawning with an authored `Position`/`Rotation` also initializes the scene
/// transform from them, and the resolved global transform mirrors it for a
/// root entity.
fn spawn_with_pos_rot(position: Vector, rotation: Rotation) -> EntityState {
    EntityState {
        transform: Transform { translation: position, rotation, scale: unit_scale() },
        global_transform: GlobalTransform { translation: position, rotation, scale: unit_scale() },
        position: Position(position),
        rotation,
        previous_rotation: None,
    }
}

/// Spawning with an authored `Transform` initializes `Position`/`Rotation`
/// from it.
fn spawn_with_transform(transform: Transform) -> EntityState {
    EntityState {
        transform,
        global_transform: GlobalTransform {
            translation: transform.translation,
            rotation: transform.rotation,
            scale: transform.scale,
        },
        position: Position(transform.translation),
        rotation: transform.rotation,
        previous_rotation: None,
    }
}

fn spawn_bare() -> EntityState {
    EntityState {
        transform: Transform::default(),
        global_transform: GlobalTransform::default(),
        position: Position::default(),
        rotation: Rotation::default(),
        previous_rotation: None,
    }
}

fn run(config: &PrepareConfig, e: &mut EntityState, parent: Option<&GlobalTransform>) {
    init_transforms(
        config,
        &mut e.transform,
        &e.global_transform,
        &mut e.position,
        &mut e.rotation,
        &mut e.previous_rotation,
        parent,
    );
}

#[test]
fn test_init_transforms_basics() {
    // Test all possible config permutations
    for (position_to_transform, transform_to_position) in
        [(true, true), (true, false), (false, true), (false, false)]
    {
        let config = PrepareConfig { position_to_transform, transform_to_position };

        // Entities with `Position` and `Rotation`
        let pos_0 = vec(1, 1, 2, 1);
        let rot_0 = rot(3, 5, 4, 5);
        let mut e_0_with_pos_and_rot = spawn_with_pos_rot(pos_0, rot_0);

        let pos_1 = vec(-1, 1, 3, 1);
        let rot_1 = rot(5, 13, 12, 13);
        let mut e_1_with_pos_and_rot = spawn_with_pos_rot(pos_1, rot_1);

        // An entity with only `Position`
        let pos_2 = vec(10, 1, 1, 1);
        let mut e_2_with_pos = spawn_with_pos_rot(pos_2, Rotation::default());

        // An entity with only `Rotation`
        let rot_3 = rot(8, 17, 15, 17);
        let mut e_3_with_rot = spawn_with_pos_rot(Vector::zero(), rot_3);

        // Entities with `Transform`
        let trans_4 =
            Transform { translation: vec(-11, 10, 6, 1), rotation: rot(-3, 5, 4, 5), scale: unit_scale() };
        let mut e_4_with_trans = spawn_with_transform(trans_4);

        let trans_5 =
            Transform { translation: vec(8, 1, -1, 1), rotation: rot(12, 13, -5, 13), scale: unit_scale() };
        let mut e_5_with_trans = spawn_with_transform(trans_5);

        // An entity without any transforms
        let mut e_6_without_trans = spawn_bare();

        // An entity without a rigid body: the initialization never runs for
        // it, so its record stays as spawned.
        let e_7_without_rb = spawn_bare();

        // Run the per-entity initialization over the new rigid bodies
        run(&config, &mut e_0_with_pos_and_rot, None);
        run(&config, &mut e_1_with_pos_and_rot, None);
        run(&config, &mut e_2_with_pos, None);
        run(&config, &mut e_3_with_rot, None);
        run(&config, &mut e_4_with_trans, None);
        run(&config, &mut e_5_with_trans, None);
        run(&config, &mut e_6_without_trans, None);

        // Check the results are as expected
        if config.position_to_transform {
            let transform = e_0_with_pos_and_rot.transform;
            assert_eq!(transform.translation, pos_0);
            assert_eq!(transform.rotation, rot_0);

            let transform = e_1_with_pos_and_rot.transform;
            assert_eq!(transform.translation, pos_1);
            assert_eq!(transform.rotation, rot_1);

            let transform = e_2_with_pos.transform;
            assert_eq!(transform.translation, pos_2);
            assert_eq!(transform.rotation, Rotation::default());

            let transform = e_3_with_rot.transform;
            assert_eq!(transform.translation, Vector::zero());
            assert_eq!(transform.rotation, rot_3);

            assert_eq!(e_4_with_trans.transform, trans_4);
            assert_eq!(e_5_with_trans.transform, trans_5);

            assert_eq!(e_6_without_trans.transform, Transform::default());

            assert_eq!(e_7_without_rb.transform, Transform::default());
        }

        if config.transform_to_position {
            assert_eq!(e_0_with_pos_and_rot.position.0, pos_0);
            assert_eq!(e_0_with_pos_and_rot.rotation, rot_0);

            assert_eq!(e_1_with_pos_and_rot.position.0, pos_1);
            assert_eq!(e_1_with_pos_and_rot.rotation, rot_1);

            assert_eq!(e_2_with_pos.position.0, pos_2);
            assert_eq!(e_2_with_pos.rotation, Rotation::default());

            assert_eq!(e_3_with_rot.position.0, Vector::zero());
            assert_eq!(e_3_with_rot.rotation, rot_3);

            assert_eq!(e_4_with_trans.position.0, trans_4.translation);
            assert_eq!(e_4_with_trans.rotation, trans_4.rotation);

            assert_eq!(e_5_with_trans.position.0, trans_5.translation);
            assert_eq!(e_5_with_trans.rotation, trans_5.rotation);

            assert_eq!(e_6_without_trans.position.0, Vector::zero());
            assert_eq!(e_6_without_trans.rotation, Rotation::default());

            assert_eq!(e_7_without_rb.position.0, Vector::zero());
            assert_eq!(e_7_without_rb.rotation, Rotation::default());
        }
    }
}

#[test]
fn init_transforms_composes_parent_transform_into_position() {
    // transform_to_position with a parent: the absolute pair is the parent's
    // resolved transform applied to the local one. The parent sits at
    // (10, 0), rotated a quarter turn counterclockwise, with scale (2, 2).
    let parent = GlobalTransform {
        translation: vec(10, 1, 0, 1),
        rotation: rot(0, 1, 1, 1),
        scale: vec(2, 1, 2, 1),
    };
    let local = Transform { translation: vec(1, 1, 2, 1), rotation: rot(3, 5, 4, 5), scale: unit_scale() };
    let mut e = spawn_with_transform(local);
    e.previous_rotation = Some(PreviousRotation(Rotation::default()));

    let config = PrepareConfig { position_to_transform: false, transform_to_position: true };
    run(&config, &mut e, Some(&parent));

    // scale (2,2) then a quarter turn maps (1,2) to (-4, 2); plus (10, 0).
    assert_eq!(e.position.0, vec(6, 1, 2, 1));
    // the rotations compose: cos = 0*3/5 - 1*4/5, sin = 1*3/5 + 0*4/5.
    assert_eq!(e.rotation, rot(-4, 5, 3, 5));
    // the local transform is untouched, and the previous-rotation slot is
    // set to the just-computed rotation.
    assert_eq!(e.transform, local);
    assert_eq!(e.previous_rotation, Some(PreviousRotation(rot(-4, 5, 3, 5))));
}

#[test]
fn init_transforms_expresses_position_in_parent_frame() {
    // position_to_transform with a parent: the absolute pair is expressed in
    // the parent's frame (translation unrotated, rotation left-divided).
    let parent = GlobalTransform {
        translation: vec(10, 1, 0, 1),
        rotation: rot(0, 1, 1, 1),
        scale: unit_scale(),
    };
    let absolute_pos = vec(6, 1, 2, 1);
    let absolute_rot = rot(-4, 5, 3, 5);
    let mut e = spawn_with_pos_rot(absolute_pos, absolute_rot);
    e.transform = Transform::default();

    let config = PrepareConfig { position_to_transform: true, transform_to_position: false };
    run(&config, &mut e, Some(&parent));

    // unrotate((6,2) - (10,0)) by the quarter turn gives (2, 4).
    assert_eq!(e.transform.translation, vec(2, 1, 4, 1));
    // inverse(parent rotation) * rotation recovers the local (3/5, 4/5).
    assert_eq!(e.transform.rotation, rot(3, 5, 4, 5));
    // position and rotation stay absolute.
    assert_eq!(e.position.0, absolute_pos);
    assert_eq!(e.rotation, absolute_rot);
}

#[test]
fn init_transforms_prefers_transform_to_position_when_both_enabled() {
    // With both switches enabled, transform_to_position wins: the position is
    // rewritten from the resolved transform and the local transform is kept.
    let authored = Transform { translation: vec(4, 1, -3, 1), rotation: rot(1, 1, 0, 1), scale: unit_scale() };
    let mut e = spawn_with_transform(authored);
    // Author a conflicting position; the resolved global transform is what
    // transform_to_position reads for a root entity.
    e.position = Position(vec(100, 1, 100, 1));

    let config = PrepareConfig { position_to_transform: true, transform_to_position: true };
    run(&config, &mut e, None);

    assert_eq!(e.position.0, vec(4, 1, -3, 1));
    assert_eq!(e.transform, authored);
}
