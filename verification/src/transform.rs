//! Placement of a primitive (translation, rotation, non-uniform scale) and
//! the owner's world pose (rotation plus translation).

use crate::math::{MAX_COORD, SCALE};
use crate::quat::{q4_identity, q4_in_range, q4_to_quat, Q4, Quat};
use crate::vec3::{v3_in_range, v3_to_vec3, v3_zero, Vec3, V3};
use vstd::prelude::*;

verus! {

/// Mathematical view of a primitive's placement.
pub ghost struct Tf {
    pub translation: V3,
    pub rotation: Q4,
    pub scale: V3,
}

/// Placement of a rendered primitive: where it sits, how it is turned,
/// and how the unit mesh is stretched along each axis.
#[derive(Clone, Copy, Debug, PartialEq, Eq, Structural)]
pub struct Transform {
    pub translation: Vec3,
    pub rotation: Quat,
    pub scale: Vec3,
}

/// Mathematical view of an owner's world pose.
pub ghost struct Iso {
    pub rotation: Q4,
    pub translation: V3,
}

/// The owner entity's pose in world space: a rotation and a translation
/// (scale is deliberately not carried; see the solver's notes).
#[derive(Clone, Copy, Debug, PartialEq, Eq, Structural)]
pub struct GlobalTransform {
    pub rotation: Quat,
    pub translation: Vec3,
}

/// The degenerate placement: zero scale renders nothing.
pub open spec fn tf_zero_scale() -> Tf {
    Tf { translation: v3_zero(), rotation: q4_identity(), scale: v3_zero() }
}

pub open spec fn iso_identity() -> Iso {
    Iso { rotation: q4_identity(), translation: v3_zero() }
}

pub open spec fn iso_or_identity(p: Option<Iso>) -> Iso {
    match p {
        Some(i) => i,
        None => iso_identity(),
    }
}

/// A pose is well formed when its quaternion is unit-bounded and its
/// translation coordinates are within the accepted input range.
pub open spec fn iso_wf(i: Iso) -> bool {
    &&& q4_in_range(i.rotation, SCALE as int)
    &&& v3_in_range(i.translation, MAX_COORD as int)
}

/// The machine value a bounded model placement rounds into.
pub open spec fn tf_to_transform(t: Tf) -> Transform {
    Transform {
        translation: v3_to_vec3(t.translation),
        rotation: q4_to_quat(t.rotation),
        scale: v3_to_vec3(t.scale),
    }
}

impl View for Transform {
    type V = Tf;

    open spec fn view(&self) -> Tf {
        Tf { translation: self.translation@, rotation: self.rotation@, scale: self.scale@ }
    }
}

impl View for GlobalTransform {
    type V = Iso;

    open spec fn view(&self) -> Iso {
        Iso { rotation: self.rotation@, translation: self.translation@ }
    }
}

impl Transform {
    /// A placement that only scales the unit mesh.
    pub fn from_scale(scale: Vec3) -> (t: Transform)
        ensures
            t@ == (Tf { translation: v3_zero(), rotation: q4_identity(), scale: scale@ }),
    {
        Transform { translation: Vec3::zero(), rotation: Quat::identity(), scale }
    }
}

/// The machine value of the identity pose.
pub open spec fn spec_global_identity() -> GlobalTransform {
    GlobalTransform {
        rotation: Quat { x: 0, y: 0, z: 0, w: SCALE },
        translation: Vec3 { x: 0, y: 0, z: 0 },
    }
}

impl GlobalTransform {
    pub open spec fn wf(&self) -> bool {
        iso_wf(self@)
    }

    /// The pose of an owner that has not been moved or turned.
    pub fn identity() -> (g: GlobalTransform)
        ensures
            g@ == iso_identity(),
            g == spec_global_identity(),
            g.wf(),
    {
        GlobalTransform { rotation: Quat::identity(), translation: Vec3::zero() }
    }
}

/// Well-formedness of an optional owner pose.
pub open spec fn opt_wf(p: Option<GlobalTransform>) -> bool {
    match p {
        Some(g) => g.wf(),
        None => true,
    }
}

/// The model pose of an optional owner pose.
pub open spec fn opt_iso(p: Option<GlobalTransform>) -> Option<Iso> {
    match p {
        Some(g) => Some(g@),
        None => None,
    }
}

} // verus!
