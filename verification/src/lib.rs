//! Debug arrows for 3-d scenes: given an owner entity and a target vector,
//! derive the transforms of a cylindrical shaft and a conical tip that
//! together render a directional arrow, and manage the two child primitives
//! over the owner's lifecycle (attach, per-tick refresh, detach).
//!
//! All geometry is carried in fixed-point arithmetic: an `i64` holds
//! millionths of a scene unit (see [`math::SCALE`]), so every computation
//! here is exact integer arithmetic with proved bounds.

pub mod lifecycle;
pub mod math;
pub mod prelude;
pub mod quat;
pub mod solver;
pub mod transform;
pub mod vec3;
pub mod vec_arrow;

use vstd::prelude::*;

verus! {

/// Registers the arrow bookkeeping: one scheduler pass runs the attach
/// reaction, then the update reaction, then the removal reaction, in that
/// order, for each owner entity.
#[derive(Clone, Copy, Debug, Default)]
pub struct BevyArrowsPlugin;

} // verus!
