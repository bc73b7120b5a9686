use counter_doom::{avatar_system, avatar_tick, move_player, spawn_avatar, Avatar, Body, Rot, Walk};

fn resting_avatar() -> Avatar {
    Avatar {
        body: Body { x: 0, y: 0, rot: Rot::Upright, scale_x: 4_000, scale_y: 4_000 },
        velocity: 0,
    }
}

#[test]
fn one_gravity_tick_from_rest() {
    // velocity 0, gravity -2.0, one tick of dt 0.5 s: velocity becomes
    // -1.0 and the vertical position drops by 1.0
    let mut a = resting_avatar();
    avatar_tick(&mut a, -2, 500, false, 5_000);
    assert_eq!(a.velocity, -1_000);
    assert_eq!(a.body.y, -1_000);
    assert_eq!(a.body.x, 0);
}

#[test]
fn free_fall_accumulates_linearly() {
    let mut a = resting_avatar();
    for _ in 0..4 {
        avatar_tick(&mut a, -2, 500, false, 5_000);
    }
    // four half-second ticks: velocity -4.0, position 0-1-2-3-4 = -10.0
    assert_eq!(a.velocity, -4_000);
    assert_eq!(a.body.y, -10_000);
}

#[test]
fn flap_overrides_any_prior_velocity() {
    let mut fast = resting_avatar();
    fast.velocity = -900_000;
    let mut slow = resting_avatar();
    slow.velocity = 250;
    avatar_tick(&mut fast, -2, 500, true, 5_000);
    avatar_tick(&mut slow, -2, 500, true, 5_000);
    assert_eq!(fast.velocity, slow.velocity);
    assert_eq!(fast.velocity, 5_000 - 1_000);
}

#[test]
fn missing_avatar_is_a_no_op() {
    let mut none: Option<Avatar> = None;
    avatar_system(&mut none, -2, 500, true, 5_000);
    assert!(none.is_none());
    let mut some = Some(resting_avatar());
    avatar_system(&mut some, -2, 500, false, 5_000);
    assert_eq!(some.unwrap().velocity, -1_000);
}

#[test]
fn cardinal_walk_moves_a_full_step() {
    let mut body = Body { x: 0, y: 0, rot: Rot::Upright, scale_x: 4_000, scale_y: 4_000 };
    let walk = Walk::new(100);
    // one second to the right at 100 units/s
    move_player(&mut body, &walk, 1_000, false, false, false, true);
    assert_eq!(body.x, 100_000);
    assert_eq!(body.y, 0);
}

#[test]
fn diagonal_walk_is_normalized() {
    let mut body = Body { x: 0, y: 0, rot: Rot::Upright, scale_x: 4_000, scale_y: 4_000 };
    let walk = Walk::new(100);
    move_player(&mut body, &walk, 1_000, true, false, false, true);
    // each axis gets 707/1000 of the cardinal step
    assert_eq!(body.x, 70_700);
    assert_eq!(body.y, 70_700);
}

#[test]
fn opposing_keys_cancel_by_sum() {
    let mut body = Body { x: 5, y: 7, rot: Rot::Upright, scale_x: 4_000, scale_y: 4_000 };
    let walk = Walk::new(100);
    move_player(&mut body, &walk, 1_000, true, true, true, true);
    assert_eq!(body.x, 5);
    assert_eq!(body.y, 7);
    // one cancelled axis still leaves the other cardinal
    move_player(&mut body, &walk, 1_000, true, true, true, false);
    assert_eq!(body.x, 5 - 100_000);
    assert_eq!(body.y, 7);
}

#[test]
fn spawned_avatar_is_at_rest() {
    let a = spawn_avatar();
    assert_eq!(a.velocity, 0);
    assert_eq!(a.body.x, 0);
    assert_eq!(a.body.y, 0);
    assert_eq!(a.body.scale_x, 4_000);
}
