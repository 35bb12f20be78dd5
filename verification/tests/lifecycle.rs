//! Tests of the arrow lifecycle manager: attach, per-tick refresh, detach.

use bevy_arrows::lifecycle::{ArrowWorld, Visibility};
use bevy_arrows::transform::GlobalTransform;
use bevy_arrows::vec3::Vec3;
use bevy_arrows::vec_arrow::{Color, TargetCoordinateSpace, VecArrow};
use bevy_arrows::BevyArrowsPlugin;

fn sample_arrow() -> VecArrow {
    VecArrow::new(Vec3::new(2_000_000, 0, 0), TargetCoordinateSpace::Local)
}

#[test]
fn attach_creates_two_distinct_children() {
    let plugin = BevyArrowsPlugin;
    let mut w = ArrowWorld::new_owner();
    w.arrow = Some(sample_arrow());
    plugin.tick(&mut w);
    let inst = w.instance.expect("attach must materialize the arrow");
    assert_ne!(inst.parts.body, inst.parts.tip);
    assert_eq!(inst.body.color, Color::white());
    assert_eq!(inst.tip.color, Color::white());
    // The owner got a default pose and visibility.
    assert_eq!(w.owner_transform, Some(GlobalTransform::identity()));
    assert_eq!(w.owner_visibility, Some(Visibility::Inherited));
}

#[test]
fn detach_then_reattach_gives_fresh_children() {
    let plugin = BevyArrowsPlugin;
    let mut w = ArrowWorld::new_owner();
    w.arrow = Some(sample_arrow());
    plugin.tick(&mut w);
    let first = w.instance.unwrap().parts;

    // The consumer removes the descriptor: the next tick destroys both
    // children and the tracking record.
    w.arrow = None;
    plugin.tick(&mut w);
    assert!(w.instance.is_none());

    // Attaching again materializes a fresh, different pair.
    w.arrow = Some(sample_arrow());
    plugin.tick(&mut w);
    let second = w.instance.unwrap().parts;
    assert_ne!(second.body, second.tip);
    assert_ne!(second.body, first.body);
    assert_ne!(second.body, first.tip);
    assert_ne!(second.tip, first.body);
    assert_ne!(second.tip, first.tip);
}

#[test]
fn detach_without_record_is_noop() {
    let plugin = BevyArrowsPlugin;
    let mut w = ArrowWorld::new_owner();
    plugin.tick(&mut w);
    assert!(w.instance.is_none());
    assert!(w.owner_transform.is_none());
    assert_eq!(w.next_id, 0);
}

#[test]
fn attach_keeps_existing_pose() {
    let plugin = BevyArrowsPlugin;
    let mut w = ArrowWorld::new_owner();
    let pose = GlobalTransform {
        rotation: bevy_arrows::quat::Quat { x: 0, y: 0, z: 0, w: 1_000_000 },
        translation: Vec3::new(7_000_000, 0, 0),
    };
    w.owner_transform = Some(pose);
    w.owner_visibility = Some(Visibility::Hidden);
    w.arrow = Some(sample_arrow());
    plugin.tick(&mut w);
    assert_eq!(w.owner_transform, Some(pose));
    assert_eq!(w.owner_visibility, Some(Visibility::Hidden));
}

#[test]
fn color_change_updates_materials_not_transforms() {
    let plugin = BevyArrowsPlugin;
    let mut w = ArrowWorld::new_owner();
    w.arrow = Some(sample_arrow());
    plugin.tick(&mut w);
    let before = w.instance.unwrap();

    // Between ticks the consumer only changes the colour.
    let red = Color { r: 1_000_000, g: 0, b: 0, a: 1_000_000 };
    w.arrow = Some(sample_arrow().with_color(red));
    plugin.tick(&mut w);
    let after = w.instance.unwrap();
    assert_eq!(after.body.color, red);
    assert_eq!(after.tip.color, red);
    assert_eq!(after.body.transform, before.body.transform);
    assert_eq!(after.tip.transform, before.tip.transform);
    assert_eq!(after.parts, before.parts);
}

#[test]
fn target_change_moves_children() {
    let plugin = BevyArrowsPlugin;
    let mut w = ArrowWorld::new_owner();
    w.arrow = Some(sample_arrow());
    plugin.tick(&mut w);
    let before = w.instance.unwrap();

    w.arrow = Some(VecArrow::new(Vec3::new(0, 3_000_000, 0), TargetCoordinateSpace::Local));
    plugin.tick(&mut w);
    let after = w.instance.unwrap();
    assert_eq!(after.parts, before.parts); // same children, moved in place
    assert_ne!(after.body.transform, before.body.transform);
    assert_eq!(after.body.transform.scale.y, 3_000_000);
    assert_eq!(after.tip.transform.translation, Vec3::new(0, 3_000_000, 0));
}

#[test]
fn owner_movement_refreshes_global_arrow() {
    let plugin = BevyArrowsPlugin;
    let mut w = ArrowWorld::new_owner();
    w.arrow = Some(VecArrow::new(Vec3::new(2_000_000, 0, 0), TargetCoordinateSpace::Global));
    plugin.tick(&mut w);
    let before = w.instance.unwrap();
    assert_eq!(before.body.transform.scale.y, 2_000_000);

    // The owner moves; the same descriptor now spans a longer offset.
    let mut pose = w.owner_transform.unwrap();
    pose.translation = Vec3::new(0, 0, 5_000_000);
    w.owner_transform = Some(pose);
    plugin.tick(&mut w);
    let after = w.instance.unwrap();
    assert_eq!(after.body.transform.scale.y, 5_385_164);
    assert_eq!(after.tip.transform.translation, Vec3::new(2_000_000, 0, 0));
}
