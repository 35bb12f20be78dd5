//! Tests of the vector geometry solver. All coordinates are in millionths
//! of a scene unit: 1_000_000 is one unit.

use bevy_arrows::quat::Quat;
use bevy_arrows::solver::{get_body_transform, get_tip_transform};
use bevy_arrows::transform::GlobalTransform;
use bevy_arrows::vec3::Vec3;
use bevy_arrows::vec_arrow::TargetCoordinateSpace;

#[test]
fn local_identity_scenario() {
    // Owner at origin, identity rotation, target (2,0,0) in local space.
    let target = Vec3::new(2_000_000, 0, 0);
    let body = get_body_transform(None, &target, &TargetCoordinateSpace::Local);
    assert_eq!(body.translation, Vec3::new(1_000_000, 0, 0));
    assert_eq!(body.scale, Vec3::new(1_000_000, 2_000_000, 1_000_000));
    // Shortest arc from +Y to +X is a quarter turn about -Z.
    assert_eq!(body.rotation, Quat { x: 0, y: 0, z: -707_107, w: 707_107 });
    let tip = get_tip_transform(None, &target, &TargetCoordinateSpace::Local, 150_000, 75_000);
    assert_eq!(tip.translation, Vec3::new(2_000_000, 0, 0));
    assert_eq!(tip.scale, Vec3::new(75_000, 150_000, 75_000));
    assert_eq!(tip.rotation, body.rotation);
}

#[test]
fn global_displaced_owner_scenario() {
    // Owner at (0,0,5), target (2,0,0) as an absolute point: the effective
    // vector is (2,0,-5), of length sqrt(29).
    let owner = GlobalTransform {
        rotation: Quat { x: 0, y: 0, z: 0, w: 1_000_000 },
        translation: Vec3::new(0, 0, 5_000_000),
    };
    let target = Vec3::new(2_000_000, 0, 0);
    let body = get_body_transform(Some(owner), &target, &TargetCoordinateSpace::Global);
    assert_eq!(body.scale.y, 5_385_164); // sqrt(29) in millionths, rounded down
    // Shaft midpoint: e/2 shifted back by the owner's translation.
    assert_eq!(body.translation, Vec3::new(1_000_000, 0, 2_500_000));
    let tip = get_tip_transform(Some(owner), &target, &TargetCoordinateSpace::Global, 150_000, 75_000);
    // The tip lands exactly on the absolute target point.
    assert_eq!(tip.translation, target);
}

#[test]
fn zero_target_renders_nothing() {
    let zero = Vec3::zero();
    for space in [TargetCoordinateSpace::Local, TargetCoordinateSpace::Global] {
        let body = get_body_transform(None, &zero, &space);
        assert_eq!(body.scale, Vec3::zero());
        assert_eq!(body.translation, Vec3::zero());
        let tip = get_tip_transform(None, &zero, &space, 150_000, 75_000);
        assert_eq!(tip.scale, Vec3::zero());
    }
    // A rotated owner does not change the degenerate local-space case.
    let owner = GlobalTransform {
        rotation: Quat { x: 0, y: 0, z: 707_107, w: 707_107 },
        translation: Vec3::new(3_000_000, 0, 0),
    };
    let body = get_body_transform(Some(owner), &zero, &TargetCoordinateSpace::Local);
    assert_eq!(body.scale, Vec3::zero());
}

#[test]
fn solver_is_deterministic() {
    let owner = GlobalTransform {
        rotation: Quat { x: 0, y: 707_107, z: 0, w: 707_107 },
        translation: Vec3::new(-4_000_000, 2_000_000, 9_000_000),
    };
    let target = Vec3::new(1_234_567, -7_654_321, 42);
    let a = get_body_transform(Some(owner), &target, &TargetCoordinateSpace::Local);
    let b = get_body_transform(Some(owner), &target, &TargetCoordinateSpace::Local);
    assert_eq!(a, b);
    let c = get_tip_transform(Some(owner), &target, &TargetCoordinateSpace::Global, 150_000, 75_000);
    let d = get_tip_transform(Some(owner), &target, &TargetCoordinateSpace::Global, 150_000, 75_000);
    assert_eq!(c, d);
}

#[test]
fn global_owner_translation_changes_geometry() {
    // Same absolute target, two owner positions: the shaft length differs.
    let target = Vec3::new(2_000_000, 0, 0);
    let at_origin = GlobalTransform {
        rotation: Quat { x: 0, y: 0, z: 0, w: 1_000_000 },
        translation: Vec3::zero(),
    };
    let displaced = GlobalTransform {
        rotation: Quat { x: 0, y: 0, z: 0, w: 1_000_000 },
        translation: Vec3::new(0, 0, 5_000_000),
    };
    let a = get_body_transform(Some(at_origin), &target, &TargetCoordinateSpace::Global);
    let b = get_body_transform(Some(displaced), &target, &TargetCoordinateSpace::Global);
    assert_eq!(a.scale.y, 2_000_000);
    assert_eq!(b.scale.y, 5_385_164);
    assert_ne!(a.translation, b.translation);
}

#[test]
fn local_owner_rotation_turns_placements() {
    // A quarter turn about Z on the owner turns the final placements by
    // exactly that rotation and leaves the scales unchanged.
    let q = Quat { x: 0, y: 0, z: 707_107, w: 707_107 };
    let t = Vec3::new(1_000_000, 2_000_000, 3_000_000);
    let owner = GlobalTransform { rotation: q, translation: t };
    let target = Vec3::new(2_000_000, -1_000_000, 500_000);
    let base = get_body_transform(None, &target, &TargetCoordinateSpace::Local);
    let body = get_body_transform(Some(owner), &target, &TargetCoordinateSpace::Local);
    assert_eq!(body.scale, base.scale);
    assert_eq!(body.rotation, q.mul_quat(&base.rotation));
    assert_eq!(body.translation, q.mul_vec3(&base.translation).plus(&t));
    let base_tip = get_tip_transform(None, &target, &TargetCoordinateSpace::Local, 150_000, 75_000);
    let tip = get_tip_transform(Some(owner), &target, &TargetCoordinateSpace::Local, 150_000, 75_000);
    assert_eq!(tip.scale, base_tip.scale);
    assert_eq!(tip.rotation, q.mul_quat(&base_tip.rotation));
    assert_eq!(tip.translation, q.mul_vec3(&base_tip.translation).plus(&t));
}

#[test]
fn antiparallel_target_turns_about_z() {
    // Target straight down: the arc from +Y degenerates and the half turn
    // about Z is used.
    let target = Vec3::new(0, -2_000_000, 0);
    let body = get_body_transform(None, &target, &TargetCoordinateSpace::Local);
    assert_eq!(body.rotation, Quat { x: 0, y: 0, z: 1_000_000, w: 0 });
    assert_eq!(body.scale.y, 2_000_000);
    assert_eq!(body.translation, Vec3::new(0, -1_000_000, 0));
}

#[test]
fn quarter_turn_rotates_x_to_y() {
    // A quarter turn about Z takes +X exactly onto +Y in this model.
    let q = Quat { x: 0, y: 0, z: 707_107, w: 707_107 };
    let v = Vec3::new(1_000_000, 0, 0);
    assert_eq!(q.mul_vec3(&v), Vec3::new(0, 1_000_000, 0));
    // Two quarter turns compose to the half turn about Z.
    assert_eq!(q.mul_quat(&q), Quat { x: 0, y: 0, z: 1_000_000, w: 0 });
}

#[test]
fn identity_rotation_changes_nothing() {
    let id = Quat::identity();
    let v = Vec3::new(123_456, -654_321, 42);
    assert_eq!(id.mul_vec3(&v), v);
    let q = Quat { x: 0, y: 0, z: 707_107, w: 707_107 };
    assert_eq!(id.mul_quat(&q), q);
}

#[test]
fn length_of_pythagorean_vector() {
    assert_eq!(Vec3::new(3_000_000, 4_000_000, 0).length(), 5_000_000);
    assert_eq!(Vec3::zero().length(), 0);
}

#[test]
fn try_normalize_zero_is_none() {
    assert!(Vec3::zero().try_normalize().is_none());
    let d = Vec3::new(0, 2_000_000, 0).try_normalize().unwrap();
    assert_eq!(d, Vec3::new(0, 1_000_000, 0));
}

#[test]
fn largest_accepted_inputs() {
    // Both coordinates at the accepted bound, displaced the other way: the
    // effective vector reaches (1000, 1000, 1000) scene units.
    let owner = GlobalTransform {
        rotation: Quat { x: 0, y: 0, z: 0, w: 1_000_000 },
        translation: Vec3::new(-500_000_000, -500_000_000, -500_000_000),
    };
    let target = Vec3::new(500_000_000, 500_000_000, 500_000_000);
    let body = get_body_transform(Some(owner), &target, &TargetCoordinateSpace::Global);
    assert_eq!(body.scale.y, 1_732_050_807); // sqrt(3e18), rounded down
}
