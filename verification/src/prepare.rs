//! Preparation that runs at the start of each physics frame: one-shot
//! initialization of scene transforms from positions (or vice versa), and the
//! final value-range pass.
//!
//! The four phases of a step run strictly in the order given by
//! [`PrepareSet`]; each entity is independent within a phase, so the driver
//! may process entities of one phase in any order or in parallel.

use crate::components::{
    q_transform_point, Affine2, GlobalTransform, PreviousRotation, Position, Restitution,
    Transform,
};
use crate::rational::{rat_int, rat_lt, rat_wf, Rat, Ratio};
use crate::rotation::{q_rot_compose, q_rotate, rot_inverse, Rot2, Rotation};
use crate::vector::{qv_sub, Vec2};
use vstd::prelude::*;

verus! {

/// The four ordered phases of the preparation step.
///
/// 1. `First`: an extension point; nothing mandatory runs here.
/// 2. `PropagateTransforms`: resolves absolute scene transforms, and runs
///    only when a rigid body was newly created this step.
/// 3. `InitTransforms`: one-shot initialization of [`Transform`] from
///    [`Position`]/[`Rotation`] or vice versa, per [`PrepareConfig`].
/// 4. `Finalize`: value-range enforcement after everything else, such as
///    [`clamp_restitution`].
#[derive(Clone, Copy, PartialEq, Eq, Structural, Debug, Hash)]
pub enum PrepareSet {
    First,
    PropagateTransforms,
    InitTransforms,
    Finalize,
}

/// Which directions of the one-shot transform initialization run.
/// When both are enabled, `transform_to_position` takes precedence and
/// `position_to_transform` is skipped for that entity.
#[derive(Clone, Copy, PartialEq, Eq, Structural, Debug)]
pub struct PrepareConfig {
    /// Initialize [`Transform`] based on [`Position`] and [`Rotation`].
    pub position_to_transform: bool,
    /// Initialize [`Position`] and [`Rotation`] based on [`Transform`].
    pub transform_to_position: bool,
}

impl Default for PrepareConfig {
    /// Both directions enabled.
    fn default() -> (r: PrepareConfig)
        ensures
            r.position_to_transform,
            r.transform_to_position,
    {
        PrepareConfig { position_to_transform: true, transform_to_position: true }
    }
}

/// The state of one entity after [`init_transforms`].
pub struct InitOutcome {
    pub transform: Affine2,
    pub position: Vec2,
    pub rotation: Rot2,
    pub previous_rotation: Option<Rot2>,
}

pub open spec fn opt_prev_rot(o: Option<PreviousRotation>) -> Option<Rot2> {
    match o {
        Some(p) => Some(p.0@),
        None => None,
    }
}

/// What [`init_transforms`] computes for one newly created rigid body.
///
/// With both directions disabled nothing changes. Otherwise, in the
/// `transform_to_position` direction the absolute position/rotation pair is
/// derived from the parent's resolved transform applied to the local one (or
/// copied from the entity's own resolved transform at the root); in the
/// `position_to_transform` direction the already absolute pair is expressed
/// in the parent's frame and written into the local transform (unchanged at
/// the root). A present `PreviousRotation` slot is then set to the resulting
/// rotation. `None` when a step of the arithmetic leaves the representable
/// range.
pub open spec fn init_transforms_spec(
    config: PrepareConfig,
    t: Affine2,
    g: Affine2,
    p: Vec2,
    r: Rot2,
    prev: Option<Rot2>,
    parent: Option<Affine2>,
) -> Option<InitOutcome> {
    if !config.position_to_transform && !config.transform_to_position {
        Some(InitOutcome { transform: t, position: p, rotation: r, previous_rotation: prev })
    } else {
        let step = if config.transform_to_position {
            match parent {
                Some(pt) => {
                    match (q_transform_point(pt, t.translation), q_rot_compose(
                        Some(pt.rotation),
                        Some(t.rotation),
                    )) {
                        (Some(np), Some(nr)) => Some((t, np, nr)),
                        _ => None,
                    }
                },
                None => Some((t, g.translation, g.rotation)),
            }
        } else {
            match parent {
                Some(pt) => {
                    let lt = q_rotate(
                        Some(rot_inverse(pt.rotation)),
                        qv_sub(Some(p), Some(pt.translation)),
                    );
                    let lr = q_rot_compose(Some(rot_inverse(pt.rotation)), Some(r));
                    match (lt, lr) {
                        (Some(ltv), Some(lrv)) => Some(
                            (Affine2 { translation: ltv, rotation: lrv, scale: t.scale }, p, r),
                        ),
                        _ => None,
                    }
                },
                None => Some((Affine2 { translation: p, rotation: r, scale: t.scale }, p, r)),
            }
        };
        match step {
            Some((t1, p1, r1)) => Some(
                InitOutcome {
                    transform: t1,
                    position: p1,
                    rotation: r1,
                    previous_rotation: match prev {
                        Some(_) => Some(r1),
                        None => None,
                    },
                },
            ),
            None => None,
        }
    }
}

/// One-shot initialization of [`Transform`] based on [`Position`] and
/// [`Rotation`] or vice versa, for one newly created rigid body.
///
/// `parent` is the parent's already resolved absolute transform, or `None`
/// for a root entity. Exactly what [`init_transforms_spec`] states happens;
/// when the arithmetic would leave the representable range the entity is left
/// untouched.
pub fn init_transforms(
    config: &PrepareConfig,
    transform: &mut Transform,
    global_transform: &GlobalTransform,
    position: &mut Position,
    rotation: &mut Rotation,
    previous_rotation: &mut Option<PreviousRotation>,
    parent: Option<&GlobalTransform>,
)
    requires
        old(transform).wf(),
        global_transform.wf(),
        old(position).0.wf(),
        old(rotation).wf(),
        match *old(previous_rotation) {
            Some(p) => p.0.wf(),
            None => true,
        },
        match parent {
            Some(pt) => pt.wf(),
            None => true,
        },
    ensures
        final(transform).wf(),
        final(position).0.wf(),
        final(rotation).wf(),
        match *final(previous_rotation) {
            Some(p) => p.0.wf(),
            None => true,
        },
        ({
            let out = init_transforms_spec(
                *config,
                old(transform)@,
                global_transform@,
                old(position).0@,
                old(rotation)@,
                opt_prev_rot(*old(previous_rotation)),
                match parent {
                    Some(pt) => Some(pt@),
                    None => None,
                },
            );
            match out {
                Some(o) => {
                    &&& final(transform)@ == o.transform
                    &&& final(position).0@ == o.position
                    &&& final(rotation)@ == o.rotation
                    &&& opt_prev_rot(*final(previous_rotation)) == o.previous_rotation
                },
                None => {
                    &&& *final(transform) == *old(transform)
                    &&& *final(position) == *old(position)
                    &&& *final(rotation) == *old(rotation)
                    &&& *final(previous_rotation) == *old(previous_rotation)
                },
            }
        }),
{
    if !config.position_to_transform && !config.transform_to_position {
        return ;
    }
    let new_transform: Transform;
    let new_position: Position;
    let new_rotation: Rotation;
    if config.transform_to_position {
        match parent {
            Some(pt) => {
                let np = match pt.transform_point(&transform.translation) {
                    Some(v) => v,
                    None => {
                        return ;
                    },
                };
                let nr = match pt.rotation.checked_compose(&transform.rotation) {
                    Some(v) => v,
                    None => {
                        return ;
                    },
                };
                new_transform = *transform;
                new_position = Position(np);
                new_rotation = nr;
            },
            None => {
                new_transform = *transform;
                new_position = Position(global_transform.translation);
                new_rotation = global_transform.rotation;
            },
        }
    } else {
        match parent {
            Some(pt) => {
                let diff = match position.0.checked_sub(&pt.translation) {
                    Some(v) => v,
                    None => {
                        return ;
                    },
                };
                let lt = match pt.rotation.inverse().checked_rotate(&diff) {
                    Some(v) => v,
                    None => {
                        return ;
                    },
                };
                let lr = match pt.rotation.inverse().checked_compose(rotation) {
                    Some(v) => v,
                    None => {
                        return ;
                    },
                };
                new_transform = Transform { translation: lt, rotation: lr, scale: transform.scale };
                new_position = *position;
                new_rotation = *rotation;
            },
            None => {
                new_transform = Transform {
                    translation: position.0,
                    rotation: *rotation,
                    scale: transform.scale,
                };
                new_position = *position;
                new_rotation = *rotation;
            },
        }
    }
    *transform = new_transform;
    *position = new_position;
    *rotation = new_rotation;
    match previous_rotation {
        Some(p) => {
            *p = PreviousRotation(new_rotation);
        },
        None => {},
    }
}

/// A restitution coefficient clamped into `[0, 1]`.
pub open spec fn clamp_spec(c: Rat) -> Rat {
    if c.n < 0 {
        rat_int(0)
    } else if rat_lt(rat_int(1), c) {
        rat_int(1)
    } else {
        c
    }
}

/// Clamp a restitution coefficient to be between `0` and `1`.
///
/// The result always lies in `[0, 1]`; a coefficient already inside is left
/// exactly as it was. Running the pass twice changes nothing more
/// ([`lemma_clamp_restitution_idempotent`]).
pub fn clamp_restitution(restitution: &mut Restitution)
    requires
        old(restitution).coefficient.wf(),
    ensures
        final(restitution).coefficient.wf(),
        final(restitution).coefficient@ == clamp_spec(old(restitution).coefficient@),
        crate::rational::rat_le(rat_int(0), final(restitution).coefficient@),
        crate::rational::rat_le(final(restitution).coefficient@, rat_int(1)),
        crate::rational::rat_le(rat_int(0), old(restitution).coefficient@)
            && crate::rational::rat_le(old(restitution).coefficient@, rat_int(1))
            ==> *final(restitution) == *old(restitution),
{
    let one = Ratio::one();
    if restitution.coefficient.num() < 0 {
        restitution.coefficient = Ratio::zero();
    } else if one.lt(&restitution.coefficient) {
        restitution.coefficient = one;
    }
}

/// The finalization pass is idempotent: clamping a clamped coefficient
/// changes nothing.
pub proof fn lemma_clamp_restitution_idempotent(c: Rat)
    requires
        rat_wf(c),
    ensures
        clamp_spec(clamp_spec(c)) == clamp_spec(c),
{
}

} // verus!
