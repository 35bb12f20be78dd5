//! Tests of the descriptor's defaults and builder-style setters.

use bevy_arrows::prelude::VecArrow;
use bevy_arrows::vec3::Vec3;
use bevy_arrows::vec_arrow::{Color, TargetCoordinateSpace};

#[test]
fn new_fills_defaults() {
    let a = VecArrow::new(Vec3::new(1, 2, 3), TargetCoordinateSpace::Global);
    assert_eq!(a.target, Vec3::new(1, 2, 3));
    assert_eq!(a.target_coordinate_space, TargetCoordinateSpace::Global);
    assert_eq!(a.thickness, 100_000);
    assert_eq!(a.color, Color::white());
    assert_eq!(a.tip_thickness, 75_000);
    assert_eq!(a.tip_length, 150_000);
}

#[test]
fn with_thickness_replaces_only_thickness() {
    let a = VecArrow::new(Vec3::zero(), TargetCoordinateSpace::Local).with_thickness(250_000);
    assert_eq!(a.thickness, 250_000);
    assert_eq!(a.color, Color::white());
    assert_eq!(a.tip_length, 150_000);
}

#[test]
fn with_color_replaces_only_color() {
    let green = Color { r: 0, g: 1_000_000, b: 0, a: 1_000_000 };
    let a = VecArrow::new(Vec3::zero(), TargetCoordinateSpace::Local).with_color(green);
    assert_eq!(a.color, green);
    assert_eq!(a.thickness, 100_000);
    assert_eq!(a.target, Vec3::zero());
}

#[test]
fn white_is_opaque_white() {
    let w = Color::white();
    assert_eq!(w, Color { r: 1_000_000, g: 1_000_000, b: 1_000_000, a: 1_000_000 });
}
