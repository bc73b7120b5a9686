//! The collision detector: the avatar is tested against each obstacle body
//! in the obstacle's own rotated frame. The vector from obstacle to avatar
//! is carried through the inverse of the obstacle's rotation, the fixed
//! half-height of an obstacle body is subtracted, and a hit is declared
//! when the avatar's nose has crossed the solid boundary.

use vstd::prelude::*;
use vstd::arithmetic::div_mod::lemma_fundamental_div_mod;
use crate::body::Body;
use crate::body::Rot;
use crate::obstacles::HALF_PIPE_HEIGHT;
use crate::obstacles::Obstacle;
use crate::obstacles::spec_is_bottom;
use crate::obstacles::spec_is_top;

verus! {

/// Coordinates the detector accepts; wide enough for every position the
/// generators and integrators produce.
pub const DETECT_LIMIT: i64 = 4_000_000_000_000;

/// The horizontal offset of the avatar in the obstacle's local frame: the
/// inverse of a half-turn rotation negates both components.
pub open spec fn spec_local_dx(av_x: int, ob: Body) -> int {
    if ob.rot == Rot::Upright {
        av_x - ob.x
    } else {
        -(av_x - ob.x)
    }
}

/// The vertical offset in the local frame, after subtracting the fixed
/// half-height of the obstacle body: how far the avatar's center stands
/// above the obstacle's solid edge.
pub open spec fn spec_local_dy(av_y: int, ob: Body) -> int {
    (if ob.rot == Rot::Upright {
        av_y - ob.y
    } else {
        -(av_y - ob.y)
    }) - HALF_PIPE_HEIGHT
}

/// The rotated-frame distance test: a hit exactly when the absolute local
/// horizontal offset is under the avatar's half-width and the local
/// vertical offset is under its half-height.
pub open spec fn spec_collides(av_x: int, av_y: int, half_w: int, half_h: int, ob: Body) -> bool {
    vstd::math::abs(spec_local_dx(av_x, ob)) < half_w && spec_local_dy(av_y, ob) < half_h
}

/// Tests one avatar body (given by its center and half-extents) against
/// one obstacle body.
pub fn collides(av: &Body, half_w: i64, half_h: i64, ob: &Body) -> (r: bool)
    requires
        -DETECT_LIMIT <= av.x <= DETECT_LIMIT,
        -DETECT_LIMIT <= av.y <= DETECT_LIMIT,
        -DETECT_LIMIT <= ob.x <= DETECT_LIMIT,
        -DETECT_LIMIT <= ob.y <= DETECT_LIMIT,
        0 <= half_w <= DETECT_LIMIT,
        0 <= half_h <= DETECT_LIMIT,
    ensures
        r == spec_collides(av.x as int, av.y as int, half_w as int, half_h as int, *ob),
{
    let dx: i64 = av.x - ob.x;
    let dy: i64 = av.y - ob.y;
    let (lx, ly): (i64, i64) = match ob.rot {
        Rot::Upright => (dx, dy),
        Rot::Flipped => (-dx, -dy),
    };
    let ax: i64 = if lx < 0 {
        -lx
    } else {
        lx
    };
    ax < half_w && ly - HALF_PIPE_HEIGHT < half_h
}

/// Scans the field in iteration order and reports the first obstacle the
/// avatar collides with; only that first hit matters in a tick.
pub fn first_collision(av: &Body, half_w: i64, half_h: i64, field: &Vec<Obstacle>) -> (r: Option<
    usize,
>)
    requires
        -DETECT_LIMIT <= av.x <= DETECT_LIMIT,
        -DETECT_LIMIT <= av.y <= DETECT_LIMIT,
        0 <= half_w <= DETECT_LIMIT,
        0 <= half_h <= DETECT_LIMIT,
        forall|i: int|
            0 <= i < field.len() ==> -DETECT_LIMIT <= #[trigger] field[i].body.x <= DETECT_LIMIT
                && -DETECT_LIMIT <= field[i].body.y <= DETECT_LIMIT,
    ensures
        match r {
            Some(i) => i < field.len() && spec_collides(
                av.x as int,
                av.y as int,
                half_w as int,
                half_h as int,
                field[i as int].body,
            ) && forall|j: int|
                0 <= j < i ==> !spec_collides(
                    av.x as int,
                    av.y as int,
                    half_w as int,
                    half_h as int,
                    #[trigger] field[j].body,
                ),
            None => forall|j: int|
                0 <= j < field.len() ==> !spec_collides(
                    av.x as int,
                    av.y as int,
                    half_w as int,
                    half_h as int,
                    #[trigger] field[j].body,
                ),
        },
{
    let n = field.len();
    let mut i: usize = 0;
    while i < n
        invariant
            i <= n,
            n == field.len(),
            -DETECT_LIMIT <= av.x <= DETECT_LIMIT,
            -DETECT_LIMIT <= av.y <= DETECT_LIMIT,
            0 <= half_w <= DETECT_LIMIT,
            0 <= half_h <= DETECT_LIMIT,
            forall|k: int|
                0 <= k < field.len() ==> -DETECT_LIMIT <= #[trigger] field[k].body.x <= DETECT_LIMIT
                    && -DETECT_LIMIT <= field[k].body.y <= DETECT_LIMIT,
            forall|j: int|
                0 <= j < i ==> !spec_collides(
                    av.x as int,
                    av.y as int,
                    half_w as int,
                    half_h as int,
                    #[trigger] field[j].body,
                ),
        decreases n - i,
    {
        if collides(av, half_w, half_h, &field[i].body) {
            return Some(i);
        }
        i = i + 1;
    }
    None
}

/// The two halves of a spawned pair bound consistent, non-overlapping
/// regions: an avatar whose center stands exactly at the pair's configured
/// center offset — the shared gap midpoint — collides with neither the
/// bottom half nor its mirrored top half, provided the gap admits the
/// avatar (its half-height is at most half the gap). The symmetry of the
/// test under the half-turn rotation makes both sides give the same
/// clearance.
pub proof fn lemma_gap_midpoint_clear(
    x: int,
    offset: int,
    gap: int,
    half_w: int,
    half_h: int,
    bottom: Obstacle,
    top: Obstacle,
)
    requires
        0 <= gap,
        spec_is_bottom(bottom, x, offset, gap),
        spec_is_top(top, x, offset, gap),
        half_h <= gap / 2,
    ensures
        !spec_collides(x, offset, half_w, half_h, bottom.body),
        !spec_collides(x, offset, half_w, half_h, top.body),
{
    lemma_fundamental_div_mod(gap, 2);
    assert(spec_local_dy(offset, bottom.body) == gap / 2);
    assert(spec_local_dy(offset, top.body) == gap - gap / 2);
}

} // verus!
