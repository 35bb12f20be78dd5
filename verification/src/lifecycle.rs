//! The arrow lifecycle manager: the bookkeeping kept for one owner entity,
//! and the three per-tick reactions that materialize, refresh and tear
//! down its two child primitives.
//!
//! Owners are independent of one another (the solver is pure and each
//! owner's primitives are disjoint), so the state here is the slice of the
//! scene belonging to a single owner, together with the allocator cursor
//! that hands out child identifiers. A host drives one such record per
//! owner, once per tick, in the registered order: attach, update, removal.

use crate::solver::{
    get_body_transform, get_tip_transform, spec_body_transform, spec_tip_transform,
};
use crate::transform::{opt_iso, spec_global_identity, tf_to_transform, GlobalTransform, Transform};
use crate::vec_arrow::{Color, VecArrow};
use vstd::prelude::*;

verus! {

/// Whether the owner is shown; a freshly decorated owner that lacks the
/// flag is given `Inherited`.
#[derive(Clone, Copy, Debug, PartialEq, Eq, Structural)]
pub enum Visibility {
    Inherited,
    Visible,
    Hidden,
}

/// The identifiers of the two generated child entities. Held by the owner
/// while its arrow is materialized, and used on removal to find the
/// children to destroy.
#[derive(Clone, Copy, Debug, PartialEq, Eq, Structural)]
pub struct VecArrowParts {
    pub body: u64,
    pub tip: u64,
}

/// One generated child: its placement and its material's colour.
#[derive(Clone, Copy, Debug, PartialEq, Eq, Structural)]
pub struct ArrowPrimitive {
    pub transform: Transform,
    pub color: Color,
}

/// A materialized arrow: the tracking record plus the two children it
/// names. The children exist exactly as long as this record does.
#[derive(Clone, Copy, Debug, PartialEq, Eq, Structural)]
pub struct ArrowInstance {
    pub parts: VecArrowParts,
    pub body: ArrowPrimitive,
    pub tip: ArrowPrimitive,
}

/// The slice of the scene belonging to one owner entity: the allocator
/// cursor for child identifiers, the owner's pose and visibility, the
/// descriptor the consumer did or did not attach, and the materialized
/// arrow, if any.
#[derive(Clone, Copy, Debug)]
pub struct ArrowWorld {
    /// Next child identifier to hand out; identifiers below it are spent
    /// and never reused.
    pub next_id: u64,
    pub owner_transform: Option<GlobalTransform>,
    pub owner_visibility: Option<Visibility>,
    pub arrow: Option<VecArrow>,
    pub instance: Option<ArrowInstance>,
}

impl ArrowWorld {
    /// The tracking invariant: a materialized arrow names two distinct,
    /// already-allocated children and an owner with a pose; whatever is
    /// attached is well formed.
    pub open spec fn wf(&self) -> bool {
        &&& match self.instance {
            Some(inst) => {
                &&& inst.parts.body != inst.parts.tip
                &&& inst.parts.body < self.next_id
                &&& inst.parts.tip < self.next_id
                &&& self.owner_transform is Some
            },
            None => true,
        }
        &&& match self.arrow {
            Some(a) => a.wf(),
            None => true,
        }
        &&& match self.owner_transform {
            Some(g) => g.wf(),
            None => true,
        }
    }

    /// A fresh, undecorated owner.
    pub fn new_owner() -> (w: ArrowWorld)
        ensures
            w == (ArrowWorld {
                next_id: 0,
                owner_transform: None,
                owner_visibility: None,
                arrow: None,
                instance: None,
            }),
            w.wf(),
    {
        ArrowWorld {
            next_id: 0,
            owner_transform: None,
            owner_visibility: None,
            arrow: None,
            instance: None,
        }
    }
}

/// What the attach reaction does: when a descriptor is present but not yet
/// materialized, give the owner a default pose and visibility where they
/// are missing (never overwriting), solve the geometry against the owner's
/// pose as it was found, and materialize the two children under two
/// freshly allocated identifiers. Otherwise nothing changes.
pub open spec fn attach_step(w: ArrowWorld) -> ArrowWorld {
    match (w.arrow, w.instance) {
        (Some(a), None) => ArrowWorld {
            next_id: (w.next_id + 2) as u64,
            owner_transform: match w.owner_transform {
                Some(g) => Some(g),
                None => Some(spec_global_identity()),
            },
            owner_visibility: match w.owner_visibility {
                Some(v) => Some(v),
                None => Some(Visibility::Inherited),
            },
            arrow: w.arrow,
            instance: Some(ArrowInstance {
                parts: VecArrowParts { body: w.next_id, tip: (w.next_id + 1) as u64 },
                body: ArrowPrimitive {
                    transform: tf_to_transform(
                        spec_body_transform(
                            opt_iso(w.owner_transform),
                            a.target@,
                            a.target_coordinate_space,
                        ),
                    ),
                    color: a.color,
                },
                tip: ArrowPrimitive {
                    transform: tf_to_transform(
                        spec_tip_transform(
                            opt_iso(w.owner_transform),
                            a.target@,
                            a.target_coordinate_space,
                            a.tip_length as int,
                            a.tip_thickness as int,
                        ),
                    ),
                    color: a.color,
                },
            }),
        },
        _ => w,
    }
}

/// What the update reaction does: while a descriptor and a materialized
/// arrow are both present, re-solve against the owner's current pose and
/// the descriptor's current fields, overwriting both children's placements
/// and colours; the children keep their identities. Otherwise nothing
/// changes.
pub open spec fn update_step(w: ArrowWorld) -> ArrowWorld {
    match (w.arrow, w.instance) {
        (Some(a), Some(inst)) => ArrowWorld {
            next_id: w.next_id,
            owner_transform: w.owner_transform,
            owner_visibility: w.owner_visibility,
            arrow: w.arrow,
            instance: Some(ArrowInstance {
                parts: inst.parts,
                body: ArrowPrimitive {
                    transform: tf_to_transform(
                        spec_body_transform(
                            opt_iso(w.owner_transform),
                            a.target@,
                            a.target_coordinate_space,
                        ),
                    ),
                    color: a.color,
                },
                tip: ArrowPrimitive {
                    transform: tf_to_transform(
                        spec_tip_transform(
                            opt_iso(w.owner_transform),
                            a.target@,
                            a.target_coordinate_space,
                            a.tip_length as int,
                            a.tip_thickness as int,
                        ),
                    ),
                    color: a.color,
                },
            }),
        },
        _ => w,
    }
}

/// What the removal reaction does: once the descriptor is gone while an
/// arrow is still materialized, destroy both children and drop the
/// tracking record. An owner without a record is left alone — removal is
/// a no-op there, not an error.
pub open spec fn remove_step(w: ArrowWorld) -> ArrowWorld {
    match (w.arrow, w.instance) {
        (None, Some(_)) => ArrowWorld {
            next_id: w.next_id,
            owner_transform: w.owner_transform,
            owner_visibility: w.owner_visibility,
            arrow: w.arrow,
            instance: None,
        },
        _ => w,
    }
}

/// One full scheduler pass in the registered order.
pub open spec fn tick_step(w: ArrowWorld) -> ArrowWorld {
    remove_step(update_step(attach_step(w)))
}

/// Attach reaction: materializes the arrow of a newly decorated owner.
pub fn on_attach_vec_arrow(w: &mut ArrowWorld)
    requires
        old(w).wf(),
        old(w).next_id <= u64::MAX - 2,
    ensures
        *final(w) == attach_step(*old(w)),
        final(w).wf(),
{
    if w.instance.is_none() {
        let a_opt = w.arrow;
        match a_opt {
            Some(a) => {
                let parent = w.owner_transform;
                let body_tf = get_body_transform(parent, &a.target, &a.target_coordinate_space);
                let tip_tf = get_tip_transform(
                    parent,
                    &a.target,
                    &a.target_coordinate_space,
                    a.tip_length,
                    a.tip_thickness,
                );
                if w.owner_transform.is_none() {
                    w.owner_transform = Some(GlobalTransform::identity());
                }
                if w.owner_visibility.is_none() {
                    w.owner_visibility = Some(Visibility::Inherited);
                }
                let body_id = w.next_id;
                let tip_id = w.next_id + 1;
                w.next_id = w.next_id + 2;
                w.instance = Some(ArrowInstance {
                    parts: VecArrowParts { body: body_id, tip: tip_id },
                    body: ArrowPrimitive { transform: body_tf, color: a.color },
                    tip: ArrowPrimitive { transform: tip_tf, color: a.color },
                });
            },
            None => {},
        }
    }
}

/// Update reaction: refreshes both children of a materialized arrow from
/// the owner's current pose and the descriptor's current fields. Runs
/// every tick; there is no change detection, recomputation is
/// unconditional.
pub fn update_vec_arrow(w: &mut ArrowWorld)
    requires
        old(w).wf(),
    ensures
        *final(w) == update_step(*old(w)),
        final(w).wf(),
{
    let a_opt = w.arrow;
    let inst_opt = w.instance;
    match (a_opt, inst_opt) {
        (Some(a), Some(inst)) => {
            let parent = w.owner_transform;
            let body_tf = get_body_transform(parent, &a.target, &a.target_coordinate_space);
            let tip_tf = get_tip_transform(
                parent,
                &a.target,
                &a.target_coordinate_space,
                a.tip_length,
                a.tip_thickness,
            );
            w.instance = Some(ArrowInstance {
                parts: inst.parts,
                body: ArrowPrimitive { transform: body_tf, color: a.color },
                tip: ArrowPrimitive { transform: tip_tf, color: a.color },
            });
        },
        _ => {},
    }
}

/// Removal reaction: tears down the arrow of an owner whose descriptor is
/// gone; a no-op for an owner that never materialized or was already
/// cleaned up.
pub fn on_remove_vec_arrow(w: &mut ArrowWorld)
    requires
        old(w).wf(),
    ensures
        *final(w) == remove_step(*old(w)),
        final(w).wf(),
{
    if w.arrow.is_none() && w.instance.is_some() {
        w.instance = None;
    }
}

impl crate::BevyArrowsPlugin {
    /// One scheduler pass over one owner: the three reactions in their
    /// registered order, attach before update before removal.
    pub fn tick(&self, w: &mut ArrowWorld)
        requires
            old(w).wf(),
            old(w).next_id <= u64::MAX - 2,
        ensures
            *final(w) == tick_step(*old(w)),
            final(w).wf(),
    {
        on_attach_vec_arrow(w);
        update_vec_arrow(w);
        on_remove_vec_arrow(w);
    }
}

/// The consumer removing the descriptor from a live owner between ticks.
pub open spec fn host_removes_descriptor(w: ArrowWorld) -> ArrowWorld {
    ArrowWorld {
        next_id: w.next_id,
        owner_transform: w.owner_transform,
        owner_visibility: w.owner_visibility,
        arrow: None,
        instance: w.instance,
    }
}

/// The consumer attaching a descriptor to a live owner between ticks.
pub open spec fn host_adds_descriptor(w: ArrowWorld, a: VecArrow) -> ArrowWorld {
    ArrowWorld {
        next_id: w.next_id,
        owner_transform: w.owner_transform,
        owner_visibility: w.owner_visibility,
        arrow: Some(a),
        instance: w.instance,
    }
}

/// Law: each reaction is idempotent — once an owner has been processed,
/// running the same reaction again in the same state changes nothing
/// beyond what the first run already established.
pub proof fn lemma_reactions_idempotent(w: ArrowWorld)
    ensures
        attach_step(attach_step(w)) == attach_step(w),
        update_step(update_step(w)) == update_step(w),
        remove_step(remove_step(w)) == remove_step(w),
{
}

/// Law: attaching a descriptor to an owner without a materialized arrow
/// yields exactly one tracking record naming two distinct children;
/// removing the descriptor destroys both children and the record; a later
/// re-attach materializes a fresh pair, disjoint from the first — child
/// identifiers are never reused.
pub proof fn lemma_lifecycle_fresh_children(w0: ArrowWorld, a1: VecArrow)
    requires
        w0.wf(),
        w0.arrow is Some,
        w0.instance is None,
        w0.next_id <= u64::MAX - 4,
    ensures
        ({
            let w1 = attach_step(w0);
            let w2 = remove_step(host_removes_descriptor(w1));
            let w3 = attach_step(host_adds_descriptor(w2, a1));
            &&& w1.instance is Some
            &&& w2.instance is None
            &&& w3.instance is Some
            &&& (w1.instance matches Some(i1) && w3.instance matches Some(i3) && {
                &&& i1.parts.body != i1.parts.tip
                &&& i3.parts.body != i3.parts.tip
                &&& i3.parts.body != i1.parts.body
                &&& i3.parts.body != i1.parts.tip
                &&& i3.parts.tip != i1.parts.body
                &&& i3.parts.tip != i1.parts.tip
            })
        }),
{
}

} // verus!
