use counter_doom::{
    place_pairs, setup_obstacles, side_scroll, spawn_pair, spawn_pair_bodies, PairRole,
    PairVariant,
};

const PIPE_HEIGHT: i64 = 512_000;
const HALF_PIPE_HEIGHT: i64 = 256_000;

#[test]
fn pair_halves_are_mirrored_around_the_gap() {
    let (bottom, top) = spawn_pair_bodies(50_000, 17_000, 300_000);
    assert_eq!(bottom.role, PairRole::Bottom);
    assert_eq!(top.role, PairRole::Top);
    assert_eq!(bottom.body.x, 50_000);
    assert_eq!(top.body.x, 50_000);
    assert_eq!(bottom.body.y, 17_000 - 150_000 - HALF_PIPE_HEIGHT);
    assert_eq!(top.body.y, bottom.body.y + PIPE_HEIGHT + 300_000);
    // the top half is turned and mirrored
    assert_eq!(bottom.body.scale_x, 4_000);
    assert_eq!(top.body.scale_x, -4_000);
    assert_eq!(top.body.scale_y, 4_000);
}

#[test]
fn pair_clearance_equals_the_configured_gap() {
    for (offset, gap) in [(0, 280_000), (-123_456, 301_337), (199_999, 0)] {
        let (bottom, top) = spawn_pair_bodies(0, offset, gap);
        let bottom_upper_edge = bottom.body.y + HALF_PIPE_HEIGHT;
        let top_lower_edge = top.body.y - HALF_PIPE_HEIGHT;
        assert_eq!(top_lower_edge - bottom_upper_edge, gap);
    }
}

#[test]
fn variant_selects_which_halves_materialize() {
    let (b, t) = spawn_pair(0, 0, 100_000, PairVariant::BottomOnly);
    assert!(b.is_some() && t.is_none());
    let (b, t) = spawn_pair(0, 0, 100_000, PairVariant::TopOnly);
    assert!(b.is_none() && t.is_some());
    let (b, t) = spawn_pair(0, 0, 100_000, PairVariant::Both);
    assert!(b.is_some() && t.is_some());
}

#[test]
fn place_pairs_spaces_the_field_evenly() {
    let offsets = vec![10_000, -20_000, 0];
    let field = place_pairs(3, 600_000, 450_000, 288_000, &offsets);
    assert_eq!(field.len(), 6);
    for i in 0..3usize {
        let bottom = &field[2 * i];
        let top = &field[2 * i + 1];
        assert_eq!(bottom.body.x, 600_000 + (i as i64) * 450_000);
        assert_eq!(top.body.x, bottom.body.x);
        assert_eq!(bottom.body.y, offsets[i] - 144_000 - HALF_PIPE_HEIGHT);
        assert_eq!(bottom.role, PairRole::Bottom);
        assert_eq!(top.role, PairRole::Top);
    }
}

#[test]
fn generated_offsets_stay_in_their_band() {
    let gap: i64 = 288_000;
    let field = setup_obstacles(8, 600_000, 450_000, gap);
    assert_eq!(field.len(), 16);
    for i in 0..8usize {
        let bottom = &field[2 * i];
        let top = &field[2 * i + 1];
        assert_eq!(bottom.body.x, 600_000 + (i as i64) * 450_000);
        let offset = bottom.body.y + HALF_PIPE_HEIGHT + gap / 2;
        assert!((-200_000..=200_000).contains(&offset));
        assert_eq!(top.body.y - HALF_PIPE_HEIGHT - (bottom.body.y + HALF_PIPE_HEIGHT), gap);
    }
}

#[test]
fn side_scroll_shifts_left_and_wraps() {
    let offsets = vec![0, 0];
    let mut field = place_pairs(2, 100_000, 4_000_000, 288_000, &offsets);
    // speed 200 units/s for 0.25 s: 50 units to the left
    side_scroll(&mut field, 200, 250, 0, 8_000_000);
    assert_eq!(field[0].body.x, 100_000 - 50_000);
    assert_eq!(field[2].body.x, 4_100_000 - 50_000);
    // a second pass takes the first pair across the threshold: it wraps
    // up by one world width instead of leaving the band
    side_scroll(&mut field, 200, 500, 0, 8_000_000);
    assert_eq!(field[0].body.x, 50_000 - 100_000 + 8_000_000);
    assert_eq!(field[2].body.x, 4_050_000 - 100_000);
    // everything but the horizontal position is untouched
    assert_eq!(field[0].body.y, -400_000);
    assert_eq!(field[0].body.scale_x, 4_000);
    assert_eq!(field[1].body.scale_x, -4_000);
    assert_eq!(field[0].role, PairRole::Bottom);
}

#[test]
fn scrolled_position_matches_the_modular_law() {
    let offsets = vec![0];
    let mut field = place_pairs(1, 500_000, 0, 288_000, &offsets);
    let initial_x: i64 = 500_000;
    let world: i64 = 8_000_000;
    let speed: i64 = 200;
    let mut elapsed_ms: i64 = 0;
    for _ in 0..20 {
        side_scroll(&mut field, speed, 700, 0, world);
        elapsed_ms += 700;
        let expected = (initial_x - speed * elapsed_ms).rem_euclid(world);
        assert_eq!(field[0].body.x, expected);
        assert!(field[0].body.x >= 0);
    }
}
