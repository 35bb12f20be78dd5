//! The arrow descriptor a consumer attaches to an owner entity: target
//! vector, coordinate space, dimensions and colour.

use crate::math::{MAX_COORD, SCALE};
use crate::vec3::{v3_in_range, Vec3};
use vstd::prelude::*;

verus! {

/// A colour with red, green, blue and alpha channels, each an `i64` in
/// millionths (one scene unit of intensity is `SCALE`).
#[derive(Clone, Copy, Debug, PartialEq, Eq, Structural)]
pub struct Color {
    pub r: i64,
    pub g: i64,
    pub b: i64,
    pub a: i64,
}

/// Fully opaque white, the default arrow colour.
pub open spec fn spec_white() -> Color {
    Color { r: SCALE, g: SCALE, b: SCALE, a: SCALE }
}

impl Color {
    /// Fully opaque white.
    pub fn white() -> (c: Color)
        ensures
            c == spec_white(),
    {
        Color { r: SCALE, g: SCALE, b: SCALE, a: SCALE }
    }
}

/// How the descriptor's target point is to be read.
#[derive(Clone, Copy, Debug, PartialEq, Eq, Structural)]
pub enum TargetCoordinateSpace {
    /// The target is an absolute point in world space.
    Global,
    /// The target is a vector in the owner's own axes.
    Local,
}

/// An arrow starting at the owner entity's origin and pointing at a
/// particular position.
#[derive(Clone, Copy, Debug, PartialEq, Eq, Structural)]
pub struct VecArrow {
    /// Where the arrow points.
    pub target: Vec3,
    /// The coordinate system the target is in.
    pub target_coordinate_space: TargetCoordinateSpace,
    /// Authored shaft radius hint, in millionths of a scene unit. The
    /// solver leaves the shaft's radial scale at the mesh-authored radius,
    /// so this field is carried but never read by the geometry.
    pub thickness: i64,
    /// Colour of the shaft and the tip.
    pub color: Color,
    /// Diameter of the cone at the bottom of the tip, in millionths.
    pub tip_thickness: i64,
    /// Axial length of the tip, in millionths.
    pub tip_length: i64,
}

impl VecArrow {
    /// A descriptor is well formed when its target's coordinates are
    /// within the accepted input range.
    pub open spec fn wf(&self) -> bool {
        v3_in_range(self.target@, MAX_COORD as int)
    }

    /// A descriptor with the default dimensions (shaft radius hint a tenth
    /// of a unit, tip three-quarters of a tenth wide and 0.15 units long)
    /// and a white colour.
    pub fn new(target: Vec3, target_coordinate_space: TargetCoordinateSpace) -> (a: VecArrow)
        ensures
            a == (VecArrow {
                target,
                target_coordinate_space,
                thickness: 100_000,
                color: spec_white(),
                tip_thickness: 75_000,
                tip_length: 150_000,
            }),
    {
        VecArrow {
            target,
            target_coordinate_space,
            thickness: 100_000,
            color: Color::white(),
            tip_thickness: 75_000,
            tip_length: 150_000,
        }
    }

    /// The same descriptor with the given shaft radius hint.
    pub fn with_thickness(self, thickness: i64) -> (a: VecArrow)
        ensures
            a == (VecArrow { thickness, ..self }),
    {
        VecArrow { thickness, ..self }
    }

    /// The same descriptor with the given colour.
    pub fn with_color(self, color: Color) -> (a: VecArrow)
        ensures
            a == (VecArrow { color, ..self }),
    {
        VecArrow { color, ..self }
    }
}

} // verus!
