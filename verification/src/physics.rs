//! The movement integrator, in both of the game's variants: the gravity and
//! flap-impulse model of the side-scrolling avatar, and the top-down
//! directional walk. Velocities are fixed-point (three decimal places),
//! accelerations and walk speeds are whole units per second, and delta-time
//! is in milliseconds, so every per-tick product lands back on the
//! fixed-point scale without rounding.

use vstd::prelude::*;
use vstd::arithmetic::mul::lemma_mul_is_distributive_add;
use crate::body::Body;

verus! {

/// Largest delta-time one tick may carry, in milliseconds.
pub const DT_MAX: i64 = 1_000_000;

/// Bound on a velocity or flap impulse handed to the integrator.
pub const VEL_LIMIT: i64 = 1_000_000_000;

/// Bound on the magnitude of a gravity setting, in units per second squared.
pub const ACCEL_LIMIT: i64 = 1_000_000;

/// Bound on a walk speed, in units per second.
pub const SPEED_LIMIT: i64 = 1_000_000;

/// Bound on a coordinate the integrator is asked to move.
pub const COORD_LIMIT: i64 = 1_000_000_000_000;

/// The avatar of the side-scrolling variant: one body plus a scalar
/// vertical velocity.
#[derive(PartialEq, Eq, Structural, Clone, Copy, Debug)]
pub struct Avatar {
    pub body: Body,
    pub velocity: i64,
}

/// The walk capability of the top-down variant: a scalar speed in whole
/// units per second, no persisted velocity.
#[derive(PartialEq, Eq, Structural, Clone, Copy, Debug)]
pub struct Walk {
    pub speed: i64,
}

impl Walk {
    pub fn new(speed: i64) -> (r: Walk)
        ensures
            r == (Walk { speed }),
    {
        Walk { speed }
    }
}

/// The vertical velocity after one tick: a flap overrides whatever velocity
/// had accumulated, and gravity then acts for `dt` milliseconds.
pub open spec fn spec_flap_velocity(v: int, gravity: int, dt: int, flap: bool, flap_dv: int) -> int {
    (if flap { flap_dv } else { v }) + gravity * dt
}

/// Velocity of a free fall from `v0` under `gravity` across the tick
/// sequence `dts`, with no flap input.
pub open spec fn spec_free_fall(v0: int, gravity: int, dts: Seq<int>) -> int
    decreases dts.len(),
{
    if dts.len() == 0 {
        v0
    } else {
        spec_free_fall(v0 + gravity * dts.first(), gravity, dts.drop_first())
    }
}

/// The sum of a sequence of delta-times.
pub open spec fn seq_sum(s: Seq<int>) -> int
    decreases s.len(),
{
    if s.len() == 0 {
        0
    } else {
        s.first() + seq_sum(s.drop_first())
    }
}

/// Free fall is exactly linear in elapsed time: across any delta-time
/// sequence, repeated ticks with no flap input change the velocity by
/// `gravity` per unit of summed time — the gravity-only convergence law.
pub proof fn lemma_free_fall_exact(v0: int, gravity: int, dts: Seq<int>)
    ensures
        spec_free_fall(v0, gravity, dts) == v0 + gravity * seq_sum(dts),
    decreases dts.len(),
{
    if dts.len() == 0 {
        assert(gravity * 0 == 0);
    } else {
        lemma_free_fall_exact(v0 + gravity * dts.first(), gravity, dts.drop_first());
        lemma_mul_is_distributive_add(
            gravity,
            dts.first(),
            seq_sum(dts.drop_first()),
        );
    }
}

/// With nonpositive gravity and nonnegative delta-times, a free fall never
/// raises the velocity: each tick moves it monotonically downward.
pub proof fn lemma_free_fall_monotone(v0: int, gravity: int, dts: Seq<int>)
    requires
        gravity <= 0,
        forall|i: int| 0 <= i < dts.len() ==> dts[i] >= 0,
    ensures
        spec_free_fall(v0, gravity, dts) <= v0,
    decreases dts.len(),
{
    if dts.len() != 0 {
        assert(dts.first() == dts[0]);
        assert(gravity * dts.first() <= 0) by (nonlinear_arith)
            requires
                gravity <= 0,
                dts.first() >= 0,
        ;
        assert(forall|i: int|
            0 <= i < dts.drop_first().len() ==> #[trigger] dts.drop_first()[i] == dts[i + 1]);
        lemma_free_fall_monotone(v0 + gravity * dts.first(), gravity, dts.drop_first());
    }
}

/// A flap makes the prior velocity irrelevant: two avatars that flap on the
/// same tick leave it with the same velocity, whatever they carried in. In
/// particular, gravity having already acted on the prior velocity within
/// the tick changes nothing — the impulse overrides it either way.
pub proof fn lemma_flap_overrides(v1: int, v2: int, gravity: int, dt: int, flap_dv: int)
    ensures
        spec_flap_velocity(v1, gravity, dt, true, flap_dv)
            == spec_flap_velocity(v2, gravity, dt, true, flap_dv),
        spec_flap_velocity(
            spec_flap_velocity(v1, gravity, dt, false, flap_dv),
            gravity,
            dt,
            true,
            flap_dv,
        ) == spec_flap_velocity(v1, gravity, dt, true, flap_dv),
{
}

/// One tick of the flap/gravity integrator on the avatar: the velocity
/// becomes `spec_flap_velocity`, and that new velocity is added to the
/// vertical position. Everything else on the body is untouched.
pub fn avatar_tick(avatar: &mut Avatar, gravity: i64, dt: i64, flap: bool, flap_dv: i64)
    requires
        0 <= dt <= DT_MAX,
        -ACCEL_LIMIT <= gravity <= ACCEL_LIMIT,
        -VEL_LIMIT <= old(avatar).velocity <= VEL_LIMIT,
        -VEL_LIMIT <= flap_dv <= VEL_LIMIT,
        -COORD_LIMIT <= old(avatar).body.y <= COORD_LIMIT,
    ensures
        final(avatar).velocity == spec_flap_velocity(
            old(avatar).velocity as int,
            gravity as int,
            dt as int,
            flap,
            flap_dv as int,
        ),
        final(avatar).body.y == old(avatar).body.y + final(avatar).velocity,
        final(avatar).body.x == old(avatar).body.x,
        final(avatar).body.rot == old(avatar).body.rot,
        final(avatar).body.scale_x == old(avatar).body.scale_x,
        final(avatar).body.scale_y == old(avatar).body.scale_y,
{
    proof {
        assert(-1_000_000_000_000 <= gravity * dt <= 1_000_000_000_000) by (nonlinear_arith)
            requires
                -1_000_000 <= gravity <= 1_000_000,
                0 <= dt <= 1_000_000,
        ;
    }
    let base: i64 = if flap {
        flap_dv
    } else {
        avatar.velocity
    };
    let v: i64 = base + gravity * dt;
    avatar.velocity = v;
    avatar.body.y = avatar.body.y + v;
}

/// The integrator at the system level: an avatar that does not exist (not
/// yet spawned, or already despawned) is a no-op, not a failure.
pub fn avatar_system(avatar: &mut Option<Avatar>, gravity: i64, dt: i64, flap: bool, flap_dv: i64)
    requires
        0 <= dt <= DT_MAX,
        -ACCEL_LIMIT <= gravity <= ACCEL_LIMIT,
        -VEL_LIMIT <= flap_dv <= VEL_LIMIT,
        (*old(avatar)) matches Some(a) ==> -VEL_LIMIT <= a.velocity <= VEL_LIMIT
            && -COORD_LIMIT <= a.body.y <= COORD_LIMIT,
    ensures
        (*old(avatar)) is None ==> *final(avatar) == *old(avatar),
        (*old(avatar)) matches Some(a) ==> (*final(avatar)) matches Some(b)
            && b.velocity == spec_flap_velocity(
                a.velocity as int,
                gravity as int,
                dt as int,
                flap,
                flap_dv as int,
            )
            && b.body.y == a.body.y + b.velocity
            && b.body.x == a.body.x
            && b.body.rot == a.body.rot
            && b.body.scale_x == a.body.scale_x
            && b.body.scale_y == a.body.scale_y,
{
    match avatar {
        None => {}
        Some(a) => {
            avatar_tick(a, gravity, dt, flap, flap_dv);
        }
    }
}

/// The direction one axis contributes: opposing keys cancel by sum, not by
/// precedence.
pub open spec fn spec_dir(pos: bool, neg: bool) -> int {
    (if pos { 1int } else { 0int }) - (if neg { 1int } else { 0int })
}

/// The per-axis step of a diagonal walk: the cardinal step scaled by
/// 707/1000, the fixed-point stand-in for one over the square root of two,
/// so diagonal input moves at the cardinal linear speed (up to the last
/// fixed-point digit) instead of root-two times faster.
pub open spec fn spec_diag_step(speed: int, dt: int) -> int {
    (speed * dt * 707) / 1000
}

/// Displacement of one walk tick, as (dx, dy): nothing for a cancelled or
/// empty direction, a full step on a single axis, a scaled step on both
/// axes for diagonal input.
pub open spec fn spec_walk_delta(dx: int, dy: int, speed: int, dt: int) -> (int, int) {
    if dx == 0 && dy == 0 {
        (0int, 0int)
    } else if dx != 0 && dy != 0 {
        (dx * spec_diag_step(speed, dt), dy * spec_diag_step(speed, dt))
    } else {
        (dx * (speed * dt), dy * (speed * dt))
    }
}

/// One tick of the top-down walk: the held directional keys form a
/// direction vector, and the body moves by `spec_walk_delta`. A zero
/// direction leaves the body exactly as it was.
pub fn move_player(
    body: &mut Body,
    walk: &Walk,
    dt: i64,
    up: bool,
    down: bool,
    left: bool,
    right: bool,
)
    requires
        0 <= dt <= DT_MAX,
        0 <= walk.speed <= SPEED_LIMIT,
        -COORD_LIMIT <= old(body).x <= COORD_LIMIT,
        -COORD_LIMIT <= old(body).y <= COORD_LIMIT,
    ensures
        final(body).x == old(body).x + spec_walk_delta(
            spec_dir(right, left),
            spec_dir(up, down),
            walk.speed as int,
            dt as int,
        ).0,
        final(body).y == old(body).y + spec_walk_delta(
            spec_dir(right, left),
            spec_dir(up, down),
            walk.speed as int,
            dt as int,
        ).1,
        final(body).rot == old(body).rot,
        final(body).scale_x == old(body).scale_x,
        final(body).scale_y == old(body).scale_y,
{
    let dx: i64 = (if right { 1i64 } else { 0i64 }) - (if left { 1i64 } else { 0i64 });
    let dy: i64 = (if up { 1i64 } else { 0i64 }) - (if down { 1i64 } else { 0i64 });
    if dx == 0 && dy == 0 {
        return ;
    }
    proof {
        assert(0 <= walk.speed * dt <= 1_000_000_000_000) by (nonlinear_arith)
            requires
                0 <= walk.speed <= 1_000_000,
                0 <= dt <= 1_000_000,
        ;
    }
    let cardinal: i64 = walk.speed * dt;
    let step: i64 = if dx != 0 && dy != 0 {
        let scaled: i64 = (cardinal * 707) / 1000;
        proof {
            assert(0 <= (cardinal * 707) / 1000 <= cardinal) by (nonlinear_arith)
                requires
                    0 <= cardinal <= 1_000_000_000_000,
            ;
        }
        scaled
    } else {
        cardinal
    };
    if dx == 1 {
        body.x = body.x + step;
    } else if dx == -1 {
        body.x = body.x - step;
    }
    if dy == 1 {
        body.y = body.y + step;
    } else if dy == -1 {
        body.y = body.y - step;
    }
}

} // verus!
