//! The vector geometry solver: a pure function from the owner's pose, the
//! target vector and the coordinate-space choice to the placements of the
//! arrow's shaft and tip.
//!
//! Composition with the owner is selective: only translation and rotation
//! are composed, never scale. This is exact for unscaled or uniformly
//! scaled owners and is a deliberate simplification — a non-uniformly
//! scaled owner can distort the arrow.

use crate::math::{MAX_COORD, SCALE};
use crate::quat::{q4_arc_from_y, q4_mul, q4_rotate, Quat};
use crate::transform::{
    iso_or_identity, opt_iso, opt_wf, tf_zero_scale, GlobalTransform, Iso, Tf, Transform,
};
use crate::vec3::{
    v3_add, v3_half, v3_in_range, v3_len, v3_normalize, v3_sub, v3_zero, Vec3, V3,
};
use crate::vec_arrow::TargetCoordinateSpace;
use vstd::prelude::*;

verus! {

/// The vector the geometry is actually built from: the target itself in
/// `Local` space, and the offset from the owner's position to the absolute
/// target point in `Global` space (a missing pose counts as identity).
pub open spec fn effective_vector(
    parent: Option<Iso>,
    target: V3,
    space: TargetCoordinateSpace,
) -> V3 {
    match space {
        TargetCoordinateSpace::Local => target,
        TargetCoordinateSpace::Global => v3_sub(target, iso_or_identity(parent).translation),
    }
}

/// Shaft placement for a non-zero effective vector `e`, before composing
/// with the owner: the unit-height cylinder sits at the midpoint, is
/// turned from +Y onto `e`, and is stretched along Y to `e`'s length.
pub open spec fn body_local(e: V3) -> Tf {
    Tf {
        translation: v3_half(e),
        rotation: q4_arc_from_y(v3_normalize(e)),
        scale: V3 { x: SCALE as int, y: v3_len(e), z: SCALE as int },
    }
}

/// Tip placement for a non-zero effective vector `e`, before composing
/// with the owner: the unit cone sits at the endpoint, turned the same
/// way, with the authored tip dimensions as scale.
pub open spec fn tip_local(e: V3, tip_length: int, tip_thickness: int) -> Tf {
    Tf {
        translation: e,
        rotation: q4_arc_from_y(v3_normalize(e)),
        scale: V3 { x: tip_thickness, y: tip_length, z: tip_thickness },
    }
}

/// Selective composition with the owner. In `Global` space the placement
/// is already expressed in world axes and is only shifted to the owner's
/// position; in `Local` space translation and rotation are composed as for
/// a true child. Scale is never composed.
pub open spec fn compose_selective(parent: Iso, local: Tf, space: TargetCoordinateSpace) -> Tf {
    match space {
        TargetCoordinateSpace::Global => Tf {
            translation: v3_add(local.translation, parent.translation),
            rotation: local.rotation,
            scale: local.scale,
        },
        TargetCoordinateSpace::Local => Tf {
            translation: v3_add(q4_rotate(parent.rotation, local.translation), parent.translation),
            rotation: q4_mul(parent.rotation, local.rotation),
            scale: local.scale,
        },
    }
}

/// What the solver returns for the shaft. A zero effective vector yields
/// the zero-scale placement, composed with nothing.
pub open spec fn spec_body_transform(
    parent: Option<Iso>,
    target: V3,
    space: TargetCoordinateSpace,
) -> Tf {
    let e = effective_vector(parent, target, space);
    if e == v3_zero() {
        tf_zero_scale()
    } else {
        compose_selective(iso_or_identity(parent), body_local(e), space)
    }
}

/// What the solver returns for the tip.
pub open spec fn spec_tip_transform(
    parent: Option<Iso>,
    target: V3,
    space: TargetCoordinateSpace,
    tip_length: int,
    tip_thickness: int,
) -> Tf {
    let e = effective_vector(parent, target, space);
    if e == v3_zero() {
        tf_zero_scale()
    } else {
        compose_selective(iso_or_identity(parent), tip_local(e, tip_length, tip_thickness), space)
    }
}

/// Law: under an absent or identity owner pose in `Local` space, a
/// non-zero target places the shaft at half the target with its Y scale
/// stretched to the target's length, and the tip at the target itself with
/// the authored tip dimensions as scale.
pub proof fn lemma_local_identity_placement(target: V3, tip_length: int, tip_thickness: int)
    requires
        target != v3_zero(),
    ensures
        ({
            let body = spec_body_transform(None, target, TargetCoordinateSpace::Local);
            let tip = spec_tip_transform(
                None,
                target,
                TargetCoordinateSpace::Local,
                tip_length,
                tip_thickness,
            );
            &&& body.translation == v3_half(target)
            &&& body.scale.y == v3_len(target)
            &&& body.scale == (V3 { x: SCALE as int, y: v3_len(target), z: SCALE as int })
            &&& tip.translation == target
            &&& tip.scale == (V3 { x: tip_thickness, y: tip_length, z: tip_thickness })
        }),
{
    crate::quat::lemma_q4_rotate_identity(v3_half(target));
    crate::quat::lemma_q4_rotate_identity(target);
}

/// Law: a zero target yields zero-scale (invisible) placements for both
/// shaft and tip, with no error. In `Global` space this is stated for an
/// owner at the origin (or without a pose): with a displaced owner the
/// effective vector of a zero target is the offset back to the origin,
/// which is not degenerate.
pub proof fn lemma_zero_target_zero_scale(
    parent: Option<Iso>,
    space: TargetCoordinateSpace,
    tip_length: int,
    tip_thickness: int,
)
    requires
        space is Local || iso_or_identity(parent).translation == v3_zero(),
    ensures
        spec_body_transform(parent, v3_zero(), space) == tf_zero_scale(),
        spec_tip_transform(parent, v3_zero(), space, tip_length, tip_thickness) == tf_zero_scale(),
{
}

/// Law: in `Global` space the geometry tracks the owner — moving the owner
/// while the target point stays changes the effective vector the shaft and
/// tip are built from.
pub proof fn lemma_global_translation_changes_effective_vector(target: V3, p1: Iso, p2: Iso)
    requires
        p1.translation != p2.translation,
    ensures
        effective_vector(Some(p1), target, TargetCoordinateSpace::Global) != effective_vector(
            Some(p2),
            target,
            TargetCoordinateSpace::Global,
        ),
{
}

/// Law: in `Local` space an owner rotation turns both final placements by
/// exactly that rotation (composed onto the local rotation, and applied to
/// the local translation before the owner's offset), while the scales are
/// exactly those of the identity-owner placements.
pub proof fn lemma_local_owner_rotation(
    p: Iso,
    target: V3,
    tip_length: int,
    tip_thickness: int,
)
    requires
        target != v3_zero(),
    ensures
        ({
            let body0 = spec_body_transform(None, target, TargetCoordinateSpace::Local);
            let tip0 = spec_tip_transform(
                None,
                target,
                TargetCoordinateSpace::Local,
                tip_length,
                tip_thickness,
            );
            let body = spec_body_transform(Some(p), target, TargetCoordinateSpace::Local);
            let tip = spec_tip_transform(
                Some(p),
                target,
                TargetCoordinateSpace::Local,
                tip_length,
                tip_thickness,
            );
            &&& body.scale == body0.scale
            &&& body.rotation == q4_mul(p.rotation, body0.rotation)
            &&& body.translation == v3_add(
                q4_rotate(p.rotation, body0.translation),
                p.translation,
            )
            &&& tip.scale == tip0.scale
            &&& tip.rotation == q4_mul(p.rotation, tip0.rotation)
            &&& tip.translation == v3_add(q4_rotate(p.rotation, tip0.translation), p.translation)
        }),
{
    crate::quat::lemma_q4_mul_identity_left(body_local(target).rotation);
    crate::quat::lemma_q4_rotate_identity(v3_half(target));
    crate::quat::lemma_q4_rotate_identity(target);
}

/// Composes a locally computed placement with the owner's pose, following
/// `compose_selective`.
fn compose_with_parent(
    parent: Option<GlobalTransform>,
    local: Transform,
    space: &TargetCoordinateSpace,
) -> (t: Transform)
    requires
        opt_wf(parent),
        v3_in_range(local.translation@, 1_000_000_000),
        crate::quat::q4_in_range(local.rotation@, SCALE as int),
    ensures
        t@ == compose_selective(iso_or_identity(opt_iso(parent)), local@, *space),
{
    match space {
        TargetCoordinateSpace::Global => {
            let pt = match &parent {
                Some(p) => p.translation,
                None => Vec3::zero(),
            };
            Transform {
                translation: local.translation.plus(&pt),
                rotation: local.rotation,
                scale: local.scale,
            }
        },
        TargetCoordinateSpace::Local => {
            let p = match parent {
                Some(p) => p,
                None => GlobalTransform::identity(),
            };
            let rotated = p.rotation.mul_vec3(&local.translation);
            Transform {
                translation: rotated.plus(&p.translation),
                rotation: p.rotation.mul_quat(&local.rotation),
                scale: local.scale,
            }
        },
    }
}

/// The effective vector, as executable code.
fn effective_vector_exec(
    parent_transform: &Option<GlobalTransform>,
    target: &Vec3,
    space: &TargetCoordinateSpace,
) -> (e: Vec3)
    requires
        v3_in_range(target@, MAX_COORD as int),
        opt_wf(*parent_transform),
    ensures
        e@ == effective_vector(opt_iso(*parent_transform), target@, *space),
        v3_in_range(e@, 2 * MAX_COORD as int),
{
    match space {
        TargetCoordinateSpace::Local => *target,
        TargetCoordinateSpace::Global => {
            let pt = match parent_transform {
                Some(p) => p.translation,
                None => Vec3::zero(),
            };
            target.minus(&pt)
        },
    }
}

/// Placement of the arrow's shaft: a unit-height cylinder spanning the
/// owner's origin to the effective vector's endpoint. A zero target (after
/// frame resolution) is not an error and yields a zero-scale placement.
pub fn get_body_transform(
    parent_transform: Option<GlobalTransform>,
    target: &Vec3,
    target_coordinate_space: &TargetCoordinateSpace,
) -> (t: Transform)
    requires
        v3_in_range(target@, MAX_COORD as int),
        opt_wf(parent_transform),
    ensures
        t@ == spec_body_transform(opt_iso(parent_transform), target@, *target_coordinate_space),
{
    let e = effective_vector_exec(&parent_transform, target, target_coordinate_space);
    let normalized = match e.try_normalize() {
        Some(d) => d,
        None => {
            return Transform::from_scale(Vec3::zero());
        },
    };
    let rot = Quat::from_rotation_arc_y(&normalized);
    let len = e.length();
    let local = Transform {
        translation: e.half(),
        rotation: rot,
        scale: Vec3 { x: SCALE, y: len, z: SCALE },
    };
    compose_with_parent(parent_transform, local, target_coordinate_space)
}

/// Placement of the arrow's tip: a unit cone at the effective vector's
/// endpoint, scaled to the authored tip dimensions. A zero target (after
/// frame resolution) yields a zero-scale placement.
pub fn get_tip_transform(
    parent_transform: Option<GlobalTransform>,
    target: &Vec3,
    target_coordinate_space: &TargetCoordinateSpace,
    tip_length: i64,
    tip_thickness: i64,
) -> (t: Transform)
    requires
        v3_in_range(target@, MAX_COORD as int),
        opt_wf(parent_transform),
    ensures
        t@ == spec_tip_transform(
            opt_iso(parent_transform),
            target@,
            *target_coordinate_space,
            tip_length as int,
            tip_thickness as int,
        ),
{
    let e = effective_vector_exec(&parent_transform, target, target_coordinate_space);
    let normalized = match e.try_normalize() {
        Some(d) => d,
        None => {
            return Transform::from_scale(Vec3::zero());
        },
    };
    let rot = Quat::from_rotation_arc_y(&normalized);
    let local = Transform {
        translation: e,
        rotation: rot,
        scale: Vec3 { x: tip_thickness, y: tip_length, z: tip_thickness },
    };
    compose_with_parent(parent_transform, local, target_coordinate_space)
}

} // verus!
