//! The protocols shared by the moving and colliding entities.

use vstd::prelude::*;
use crate::num::{Millis, Angle, Pixels, DT_MAX};

verus! {

/// One frame's worth of outside input: the frame delta and the steering
/// value (in thousandths, `-1000 ..= 1000`).
#[derive(Clone, Copy, PartialEq, Eq, Structural, Debug)]
pub struct UpdateFrame {
    pub dt: Millis,
    pub player_input: i64,
}

/// A contact between two overlapping shapes: the normal direction along
/// which `self` separates from the other shape, and the penetration depth
/// along that normal.  Depth zero means "just touching" and still counts
/// as a collision.
pub type Collision = (Angle, Pixels);

/// Per-frame advancement of an entity.  Each implementation names its own
/// invariant and adds an exact description of the step to `update`.
pub trait Updatable {
    /// The entity's well-formedness, preserved by every update.
    spec fn inv(&self) -> bool;

    fn update(&mut self, dt: Millis)
        requires
            old(self).inv(),
            0 <= dt <= DT_MAX,
        ensures
            final(self).inv(),
    ;
}

/// The pairwise collision protocol: `None` when the shapes do not
/// currently overlap, otherwise the contact.  Each implementation states
/// the exact geometric outcome in its own `ensures`.
pub trait Collide<T> {
    /// What the collision test needs of the pair of shapes.
    spec fn collide_req(&self, other: &T) -> bool;

    fn collide(&self, other: &T) -> (r: Option<Collision>)
        requires
            self.collide_req(other),
    ;
}

} // verus!
