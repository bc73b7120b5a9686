use counter_doom::{collides, first_collision, spawn_pair_bodies, Body, Rot};

fn avatar_at(x: i64, y: i64) -> Body {
    Body { x, y, rot: Rot::Upright, scale_x: 4_000, scale_y: 4_000 }
}

const HALF_W: i64 = 64_000;
const HALF_H: i64 = 48_000;

#[test]
fn the_gap_midpoint_touches_neither_half() {
    // a gap of 288.0 units admits the avatar: half the gap exceeds its
    // half-height, so the exact midpoint is clear of both halves
    let (bottom, top) = spawn_pair_bodies(500_000, 20_000, 288_000);
    let avatar = avatar_at(500_000, 20_000);
    assert!(!collides(&avatar, HALF_W, HALF_H, &bottom.body));
    assert!(!collides(&avatar, HALF_W, HALF_H, &top.body));
    let field = vec![bottom, top];
    assert_eq!(first_collision(&avatar, HALF_W, HALF_H, &field), None);
}

#[test]
fn crossing_the_bottom_edge_is_a_hit() {
    let (bottom, top) = spawn_pair_bodies(500_000, 0, 288_000);
    // the bottom half's upper edge stands at -144.0; an avatar center
    // within its half-height of that edge has crossed the boundary
    let grazing = avatar_at(500_000, -144_000 + HALF_H - 1);
    assert!(collides(&grazing, HALF_W, HALF_H, &bottom.body));
    assert!(!collides(&grazing, HALF_W, HALF_H, &top.body));
    let clear = avatar_at(500_000, -144_000 + HALF_H);
    assert!(!collides(&clear, HALF_W, HALF_H, &bottom.body));
}

#[test]
fn the_flipped_top_half_mirrors_the_test() {
    let (bottom, top) = spawn_pair_bodies(500_000, 0, 288_000);
    let grazing = avatar_at(500_000, 144_000 - HALF_H + 1);
    assert!(collides(&grazing, HALF_W, HALF_H, &top.body));
    assert!(!collides(&grazing, HALF_W, HALF_H, &bottom.body));
    // deep inside the top half's solid body still counts as a hit
    let inside = avatar_at(500_000, 300_000);
    assert!(collides(&inside, HALF_W, HALF_H, &top.body));
}

#[test]
fn horizontal_clearance_suppresses_the_hit() {
    let (bottom, _) = spawn_pair_bodies(500_000, 0, 288_000);
    let aside = avatar_at(500_000 + HALF_W, -400_000);
    assert!(!collides(&aside, HALF_W, HALF_H, &bottom.body));
    let overlapping = avatar_at(500_000 + HALF_W - 1, -400_000);
    assert!(collides(&overlapping, HALF_W, HALF_H, &bottom.body));
}

#[test]
fn only_the_first_hit_in_iteration_order_counts() {
    let (b1, _) = spawn_pair_bodies(500_000, 0, 288_000);
    let (b2, _) = spawn_pair_bodies(500_000, 0, 288_000);
    let avatar = avatar_at(500_000, -400_000);
    let field = vec![b1, b2];
    assert_eq!(first_collision(&avatar, HALF_W, HALF_H, &field), Some(0));
}
