//! The obstacle field: mirrored pairs of solid bodies sharing a vertical
//! gap, generated procedurally with a bounded random center offset, and
//! recycled by side-scroll wraparound — obstacles are repositioned in
//! place, never destroyed during play.

use vstd::prelude::*;
use vstd::arithmetic::div_mod::lemma_mod_add_multiples_vanish;
use vstd::arithmetic::div_mod::lemma_mod_twice;
use vstd::arithmetic::div_mod::lemma_small_mod;
use vstd::arithmetic::div_mod::lemma_sub_mod_noop;
use crate::body::Body;
use crate::body::PIXEL_RATIO;
use crate::body::Rot;
use crate::physics::COORD_LIMIT;
use crate::physics::DT_MAX;
use crate::physics::SPEED_LIMIT;
use crate::physics::seq_sum;
use crate::rng::random_in_range;

verus! {

/// World height of one obstacle half.
pub const PIPE_HEIGHT: i64 = 512_000;

/// Half of `PIPE_HEIGHT`: the offset from an obstacle's center to its
/// solid edge.
pub const HALF_PIPE_HEIGHT: i64 = 256_000;

/// Largest admissible gap between the two halves of a pair.
pub const GAP_LIMIT: i64 = 1_000_000_000;

/// Largest admissible horizontal spacing between generated pairs.
pub const SPACING_LIMIT: i64 = 1_000_000_000;

/// Largest number of pairs one generation pass may place.
pub const PAIR_LIMIT: usize = 10_000;

/// Lowest random vertical center offset a generated pair may get.
pub const OFFSET_MIN: i64 = -200_000;

/// Highest random vertical center offset a generated pair may get.
pub const OFFSET_MAX: i64 = 200_000;

/// Which half of a bound pair an obstacle body is.
#[derive(PartialEq, Eq, Structural, Clone, Copy, Debug)]
pub enum PairRole {
    Bottom,
    Top,
}

/// Which halves of a pair to materialize.
#[derive(PartialEq, Eq, Structural, Clone, Copy, Debug)]
pub enum PairVariant {
    BottomOnly,
    TopOnly,
    Both,
}

/// One solid obstacle half: a body plus its role in the pair.
#[derive(PartialEq, Eq, Structural, Clone, Copy, Debug)]
pub struct Obstacle {
    pub body: Body,
    pub role: PairRole,
}

/// Vertical center of the bottom half of a pair whose gap is centered near
/// `offset`: half the gap, then half the body, below the offset.
pub open spec fn spec_bottom_y(offset: int, gap: int) -> int {
    offset - gap / 2 - HALF_PIPE_HEIGHT
}

/// Vertical center of the top half: the bottom half shifted up by one body
/// height plus the full gap, so the clearance between the facing edges is
/// exactly `gap` whatever `offset` was drawn.
pub open spec fn spec_top_y(offset: int, gap: int) -> int {
    spec_bottom_y(offset, gap) + PIPE_HEIGHT + gap
}

/// The bottom half of the pair spawned at (`x`, `offset`) with `gap`:
/// upright, positively scaled.
pub open spec fn spec_is_bottom(o: Obstacle, x: int, offset: int, gap: int) -> bool {
    &&& o.role == PairRole::Bottom
    &&& o.body.x == x
    &&& o.body.y == spec_bottom_y(offset, gap)
    &&& o.body.rot == Rot::Upright
    &&& o.body.scale_x == PIXEL_RATIO
    &&& o.body.scale_y == PIXEL_RATIO
}

/// The top half: rotated by a half turn about the gap center and mirrored
/// by a negated horizontal scale.
pub open spec fn spec_is_top(o: Obstacle, x: int, offset: int, gap: int) -> bool {
    &&& o.role == PairRole::Top
    &&& o.body.x == x
    &&& o.body.y == spec_top_y(offset, gap)
    &&& o.body.rot == Rot::Flipped
    &&& o.body.scale_x == -PIXEL_RATIO
    &&& o.body.scale_y == PIXEL_RATIO
}

/// The vertical clearance of a spawned pair — the distance from the bottom
/// half's upper edge to the top half's lower edge — equals the configured
/// gap, independently of the pair's horizontal position and of the random
/// vertical offset.
pub proof fn lemma_pair_gap(offset: int, gap: int)
    ensures
        (spec_top_y(offset, gap) - HALF_PIPE_HEIGHT) - (spec_bottom_y(offset, gap)
            + HALF_PIPE_HEIGHT) == gap,
{
}

/// Computes both halves of a pair bound at horizontal position `center_x`
/// with its gap centered near `offset`.
pub fn spawn_pair_bodies(center_x: i64, offset: i64, gap: i64) -> (r: (Obstacle, Obstacle))
    requires
        -COORD_LIMIT <= center_x <= COORD_LIMIT,
        -COORD_LIMIT <= offset <= COORD_LIMIT,
        0 <= gap <= GAP_LIMIT,
    ensures
        spec_is_bottom(r.0, center_x as int, offset as int, gap as int),
        spec_is_top(r.1, center_x as int, offset as int, gap as int),
{
    let half_gap: i64 = gap / 2;
    let bottom_y: i64 = offset - half_gap - HALF_PIPE_HEIGHT;
    let bottom = Obstacle {
        body: Body {
            x: center_x,
            y: bottom_y,
            rot: Rot::Upright,
            scale_x: PIXEL_RATIO,
            scale_y: PIXEL_RATIO,
        },
        role: PairRole::Bottom,
    };
    let top = Obstacle {
        body: Body {
            x: center_x,
            y: bottom_y + PIPE_HEIGHT + gap,
            rot: Rot::Flipped,
            scale_x: -PIXEL_RATIO,
            scale_y: PIXEL_RATIO,
        },
        role: PairRole::Top,
    };
    (bottom, top)
}

/// Spawns the halves that `variant` selects: only the bottom, only the
/// top, or the full bound pair.
pub fn spawn_pair(center_x: i64, offset: i64, gap: i64, variant: PairVariant) -> (r: (
    Option<Obstacle>,
    Option<Obstacle>,
))
    requires
        -COORD_LIMIT <= center_x <= COORD_LIMIT,
        -COORD_LIMIT <= offset <= COORD_LIMIT,
        0 <= gap <= GAP_LIMIT,
    ensures
        (r.0 is Some) == (variant != PairVariant::TopOnly),
        (r.1 is Some) == (variant != PairVariant::BottomOnly),
        r.0 matches Some(b) ==> spec_is_bottom(b, center_x as int, offset as int, gap as int),
        r.1 matches Some(t) ==> spec_is_top(t, center_x as int, offset as int, gap as int),
{
    let (bottom, top) = spawn_pair_bodies(center_x, offset, gap);
    match variant {
        PairVariant::BottomOnly => (Some(bottom), None),
        PairVariant::TopOnly => (None, Some(top)),
        PairVariant::Both => (Some(bottom), Some(top)),
    }
}

/// Places `count` full pairs: pair `i` stands at `start_x + i * spacing`
/// with the vertical center offset `offsets[i]` and the common `gap`. The
/// field holds each pair's bottom half at index `2i`, its top half at
/// `2i + 1`.
pub fn place_pairs(count: usize, start_x: i64, spacing: i64, gap: i64, offsets: &Vec<i64>) -> (field:
    Vec<Obstacle>)
    requires
        offsets.len() == count,
        count <= PAIR_LIMIT,
        -COORD_LIMIT <= start_x <= COORD_LIMIT,
        0 <= spacing <= SPACING_LIMIT,
        start_x + count * spacing <= COORD_LIMIT,
        0 <= gap <= GAP_LIMIT,
        forall|i: int| 0 <= i < count ==> -COORD_LIMIT <= #[trigger] offsets[i] <= COORD_LIMIT,
    ensures
        field.len() == 2 * count,
        forall|i: int|
            0 <= i < count ==> spec_is_bottom(
                #[trigger] field[2 * i],
                start_x + i * spacing,
                offsets[i] as int,
                gap as int,
            ),
        forall|i: int|
            0 <= i < count ==> spec_is_top(
                #[trigger] field[2 * i + 1],
                start_x + i * spacing,
                offsets[i] as int,
                gap as int,
            ),
{
    let mut field: Vec<Obstacle> = Vec::new();
    let mut i: usize = 0;
    while i < count
        invariant
            i <= count,
            count <= PAIR_LIMIT,
            offsets.len() == count,
            -COORD_LIMIT <= start_x <= COORD_LIMIT,
            0 <= spacing <= SPACING_LIMIT,
            start_x + count * spacing <= COORD_LIMIT,
            0 <= gap <= GAP_LIMIT,
            forall|j: int| 0 <= j < count ==> -COORD_LIMIT <= #[trigger] offsets[j] <= COORD_LIMIT,
            field.len() == 2 * i,
            forall|j: int|
                0 <= j < i ==> spec_is_bottom(
                    #[trigger] field[2 * j],
                    start_x + j * spacing,
                    offsets[j] as int,
                    gap as int,
                ),
            forall|j: int|
                0 <= j < i ==> spec_is_top(
                    #[trigger] field[2 * j + 1],
                    start_x + j * spacing,
                    offsets[j] as int,
                    gap as int,
                ),
        decreases count - i,
    {
        proof {
            assert(0 <= (i as int) * spacing <= (count as int) * spacing) by (nonlinear_arith)
                requires
                    0 <= i <= count,
                    0 <= spacing,
            ;
        }
        let x: i64 = start_x + (i as i64) * spacing;
        let (bottom, top) = spawn_pair_bodies(x, offsets[i], gap);
        field.push(bottom);
        field.push(top);
        i = i + 1;
    }
    field
}

/// Generates the obstacle field: `count` pairs spaced evenly from
/// `start_x`, each with a random vertical center offset drawn from
/// [`OFFSET_MIN`, `OFFSET_MAX`] and the common `gap`. Whatever the draws
/// return, every pair is well-placed and its offset lies in the bounded
/// range; the offset is recoverable from the bottom half's position.
pub fn setup_obstacles(count: usize, start_x: i64, spacing: i64, gap: i64) -> (field: Vec<Obstacle>)
    requires
        count <= PAIR_LIMIT,
        -COORD_LIMIT <= start_x <= COORD_LIMIT,
        0 <= spacing <= SPACING_LIMIT,
        start_x + count * spacing <= COORD_LIMIT,
        0 <= gap <= GAP_LIMIT,
    ensures
        field.len() == 2 * count,
        forall|i: int|
            0 <= i < count ==> {
                let off = #[trigger] field[2 * i].body.y + HALF_PIPE_HEIGHT + gap as int / 2;
                &&& OFFSET_MIN <= off <= OFFSET_MAX
                &&& spec_is_bottom(field[2 * i], start_x + i * spacing, off, gap as int)
                &&& spec_is_top(field[2 * i + 1], start_x + i * spacing, off, gap as int)
            },
{
    let mut offsets: Vec<i64> = Vec::new();
    let mut i: usize = 0;
    while i < count
        invariant
            i <= count,
            offsets.len() == i,
            forall|j: int| 0 <= j < i ==> OFFSET_MIN <= #[trigger] offsets[j] <= OFFSET_MAX,
        decreases count - i,
    {
        let off = random_in_range(OFFSET_MIN, OFFSET_MAX);
        offsets.push(off);
        i = i + 1;
    }
    let field = place_pairs(count, start_x, spacing, gap, &offsets);
    proof {
        assert forall|i: int| 0 <= i < count implies {
            let off = #[trigger] field[2 * i].body.y + HALF_PIPE_HEIGHT + gap as int / 2;
            &&& OFFSET_MIN <= off <= OFFSET_MAX
            &&& spec_is_bottom(field[2 * i], start_x + i * spacing, off, gap as int)
            &&& spec_is_top(field[2 * i + 1], start_x + i * spacing, off, gap as int)
        } by {
            assert(spec_is_bottom(
                field[2 * i],
                start_x + i * spacing,
                offsets[i] as int,
                gap as int,
            ));
            assert(field[2 * i].body.y + HALF_PIPE_HEIGHT + gap as int / 2 == offsets[i] as int);
        }
    }
    field
}

/// Where one scroll step leaves a horizontal position: `d` to the left,
/// wrapped up by one world width when it would cross the `min_x`
/// threshold. The result never lies below the threshold.
pub open spec fn spec_scroll(x: int, d: int, min_x: int, w: int) -> int {
    if x - d < min_x {
        x - d + w
    } else {
        x - d
    }
}

/// Position after a whole sequence of scroll steps.
pub open spec fn spec_scroll_n(x: int, ds: Seq<int>, min_x: int, w: int) -> int
    decreases ds.len(),
{
    if ds.len() == 0 {
        x
    } else {
        spec_scroll_n(spec_scroll(x, ds.first(), min_x, w), ds.drop_first(), min_x, w)
    }
}

/// One wrap step is exactly modular: starting inside the world band
/// [`min_x`, `min_x + w`), the step lands on `(x - min_x - d) % w + min_x`,
/// still inside the band — never below the wrap threshold.
pub proof fn lemma_scroll_step_mod(x: int, d: int, min_x: int, w: int)
    requires
        w > 0,
        0 <= d <= w,
        min_x <= x < min_x + w,
    ensures
        min_x <= spec_scroll(x, d, min_x, w) < min_x + w,
        spec_scroll(x, d, min_x, w) == (x - min_x - d) % w + min_x,
{
    let v = x - min_x - d;
    if x - d < min_x {
        lemma_mod_add_multiples_vanish(v, w);
        lemma_small_mod((v + w) as nat, w as nat);
    } else {
        lemma_small_mod(v as nat, w as nat);
    }
}

/// The wraparound law over any tick sequence: after scrolling by the steps
/// `ds`, an obstacle's horizontal position equals its initial position
/// minus the total scrolled distance, reduced modulo the world width into
/// the band [`min_x`, `min_x + w`).
pub proof fn lemma_scroll_n_mod(x: int, ds: Seq<int>, min_x: int, w: int)
    requires
        w > 0,
        min_x <= x < min_x + w,
        forall|i: int| 0 <= i < ds.len() ==> 0 <= #[trigger] ds[i] <= w,
    ensures
        min_x <= spec_scroll_n(x, ds, min_x, w) < min_x + w,
        spec_scroll_n(x, ds, min_x, w) == (x - min_x - seq_sum(ds)) % w + min_x,
    decreases ds.len(),
{
    if ds.len() == 0 {
        lemma_small_mod((x - min_x) as nat, w as nat);
    } else {
        assert(ds.first() == ds[0]);
        lemma_scroll_step_mod(x, ds.first(), min_x, w);
        let x1 = spec_scroll(x, ds.first(), min_x, w);
        assert(forall|i: int|
            0 <= i < ds.drop_first().len() ==> #[trigger] ds.drop_first()[i] == ds[i + 1]);
        lemma_scroll_n_mod(x1, ds.drop_first(), min_x, w);
        let a = x - min_x - ds.first();
        let b = seq_sum(ds.drop_first());
        lemma_mod_twice(a, w);
        lemma_sub_mod_noop(a % w, b, w);
        lemma_sub_mod_noop(a, b, w);
        assert((a % w - b) % w == (a - b) % w);
    }
}

/// One side-scroll pass: every obstacle moves `speed * dt` to the left,
/// and any obstacle crossing the `min_x` threshold wraps up by one world
/// width `world_size` — repositioned, never destroyed. Positions stay
/// inside the world band, and nothing else on any obstacle changes.
pub fn side_scroll(field: &mut Vec<Obstacle>, speed: i64, dt: i64, min_x: i64, world_size: i64)
    requires
        0 <= speed <= SPEED_LIMIT,
        0 <= dt <= DT_MAX,
        0 < world_size <= COORD_LIMIT,
        -COORD_LIMIT <= min_x,
        min_x + world_size <= COORD_LIMIT,
        speed * dt <= world_size,
        forall|i: int|
            0 <= i < old(field).len() ==> min_x <= #[trigger] old(field)[i].body.x < min_x
                + world_size,
    ensures
        final(field).len() == old(field).len(),
        forall|i: int|
            0 <= i < old(field).len() ==> #[trigger] final(field)[i].body.x == spec_scroll(
                old(field)[i].body.x as int,
                speed * dt,
                min_x as int,
                world_size as int,
            ),
        forall|i: int|
            0 <= i < old(field).len() ==> min_x <= #[trigger] final(field)[i].body.x < min_x
                + world_size,
        forall|i: int|
            0 <= i < old(field).len() ==> {
                let o = old(field)[i];
                let n = #[trigger] final(field)[i];
                n.body.y == o.body.y && n.body.rot == o.body.rot && n.body.scale_x == o.body.scale_x
                    && n.body.scale_y == o.body.scale_y && n.role == o.role
            },
{
    proof {
        assert(0 <= speed * dt <= 1_000_000_000_000) by (nonlinear_arith)
            requires
                0 <= speed <= 1_000_000,
                0 <= dt <= 1_000_000,
        ;
    }
    let d: i64 = speed * dt;
    let n = field.len();
    let mut i: usize = 0;
    while i < n
        invariant
            i <= n,
            field.len() == n,
            n == old(field).len(),
            0 <= d <= 1_000_000_000_000,
            d == speed * dt,
            0 < world_size <= COORD_LIMIT,
            -COORD_LIMIT <= min_x,
            min_x + world_size <= COORD_LIMIT,
            d <= world_size,
            forall|j: int|
                0 <= j < n ==> min_x <= #[trigger] old(field)[j].body.x < min_x + world_size,
            forall|j: int| i <= j < n ==> #[trigger] field[j] == old(field)[j],
            forall|j: int|
                0 <= j < i ==> #[trigger] field[j].body.x == spec_scroll(
                    old(field)[j].body.x as int,
                    d as int,
                    min_x as int,
                    world_size as int,
                ),
            forall|j: int|
                0 <= j < i ==> min_x <= #[trigger] field[j].body.x < min_x + world_size,
            forall|j: int|
                0 <= j < i ==> {
                    let o = old(field)[j];
                    let c = #[trigger] field[j];
                    c.body.y == o.body.y && c.body.rot == o.body.rot && c.body.scale_x
                        == o.body.scale_x && c.body.scale_y == o.body.scale_y && c.role == o.role
                },
        decreases n - i,
    {
        let x0: i64 = field[i].body.x;
        let shifted: i64 = x0 - d;
        let x1: i64 = if shifted < min_x {
            shifted + world_size
        } else {
            shifted
        };
        let ob = &mut field[i];
        ob.body.x = x1;
        i = i + 1;
    }
}

} // verus!
