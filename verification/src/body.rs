//! Kinematic state of an entity: position, rotation about the out-of-screen
//! axis, and a signed scale (mirrored obstacle halves carry a negated
//! horizontal scale). Coordinates and scales are fixed-point values with
//! three decimal places.

use vstd::prelude::*;

verus! {

/// World units per sprite pixel, as a fixed-point scale factor.
pub const PIXEL_RATIO: i64 = 4_000;

/// Rotation about the screen-normal axis. Only the two orientations that the
/// game produces exist: an upright body, and one turned by a half turn
/// (the mirrored top half of an obstacle pair).
#[derive(PartialEq, Eq, Structural, Clone, Copy, Debug)]
pub enum Rot {
    Upright,
    Flipped,
}

/// Position, rotation and scale of one entity. Owned exclusively by the
/// entity it describes; mutated only by the movement integrator or the
/// side-scroll system.
#[derive(PartialEq, Eq, Structural, Clone, Copy, Debug)]
pub struct Body {
    pub x: i64,
    pub y: i64,
    pub rot: Rot,
    pub scale_x: i64,
    pub scale_y: i64,
}

impl Body {
    /// An untransformed body: at the origin, upright, with the given
    /// uniform scale.
    pub fn at_origin(scale: i64) -> (r: Body)
        ensures
            r == (Body { x: 0, y: 0, rot: Rot::Upright, scale_x: scale, scale_y: scale }),
    {
        Body { x: 0, y: 0, rot: Rot::Upright, scale_x: scale, scale_y: scale }
    }
}

} // verus!
