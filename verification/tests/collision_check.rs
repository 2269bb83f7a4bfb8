use flappy_core::avatar::Avatar;
use flappy_core::collision::{check_game_over, check_pair};
use flappy_core::obstacles::ObstaclePair;
use flappy_core::params::{AVATAR_HALF_EXTENT, FLOOR_LINE, PIPE_GAP};

fn avatar_at(x: i64, y: i64) -> Avatar {
    let mut a = Avatar::new();
    a.x = x;
    a.y = y;
    a
}

fn pair_at(x: i64, gap_bottom: i64) -> ObstaclePair {
    ObstaclePair { x, gap_bottom, gap_top: gap_bottom + PIPE_GAP }
}

#[test]
fn overlap_on_both_axes_is_a_hit() {
    // Avatar at the origin; the upper member's box starts at the origin,
    // so the boxes share a 45 x 45 unit area.
    let a = avatar_at(0, 0);
    let p = pair_at(0, -PIPE_GAP); // gap_top == 0
    assert!(check_pair(&a, &p));
    assert!(check_game_over(&a, &vec![p]));
}

#[test]
fn hit_by_the_lower_member() {
    // The gap hangs well above the avatar: its lower member's box,
    // reaching down from gap_bottom, covers the avatar.
    let a = avatar_at(0, 0);
    let p = pair_at(0, 90_000);
    assert!(check_pair(&a, &p));
}

#[test]
fn exact_touch_is_not_a_hit() {
    let a = avatar_at(0, 0);
    // The upper member's box begins exactly where the avatar's box ends:
    // zero vertical margin, no overlap under the strict test.
    let touch_above = pair_at(0, AVATAR_HALF_EXTENT - PIPE_GAP); // gap_top == 45_000
    assert!(!check_pair(&a, &touch_above));
    // The lower member's box ends exactly where the avatar's begins.
    let touch_below = pair_at(0, -AVATAR_HALF_EXTENT);
    assert!(!check_pair(&a, &touch_below));
    // Horizontally: the pair's box begins exactly at the avatar's right edge.
    let touch_right = pair_at(AVATAR_HALF_EXTENT, -PIPE_GAP);
    assert!(!check_pair(&a, &touch_right));
}

#[test]
fn one_milliunit_of_margin_is_a_hit() {
    let a = avatar_at(0, 0);
    // One milliunit past exact touch on the vertical axis.
    let p = pair_at(0, AVATAR_HALF_EXTENT - PIPE_GAP - 1);
    assert!(check_pair(&a, &p));
    // And on the horizontal axis.
    let q = pair_at(AVATAR_HALF_EXTENT - 1, -PIPE_GAP);
    assert!(check_pair(&a, &q));
}

#[test]
fn safely_inside_the_gap_is_no_hit() {
    // The avatar sits centred in a gap 150 units tall: 30 units of
    // clearance above and below.
    let a = avatar_at(0, 0);
    let p = pair_at(-30_000, -PIPE_GAP / 2);
    assert!(!check_pair(&a, &p));
}

#[test]
fn floor_line_is_strict() {
    let on_line = avatar_at(0, FLOOR_LINE);
    assert!(!check_game_over(&on_line, &Vec::new()));
    let below = avatar_at(0, FLOOR_LINE - 1);
    assert!(check_game_over(&below, &Vec::new()));
}

#[test]
fn first_hit_among_many_obstacles_is_found() {
    let a = avatar_at(0, 0);
    let far = pair_at(-200_000, 0);
    let hit = pair_at(0, -PIPE_GAP);
    assert!(check_game_over(&a, &vec![far, hit]));
    assert!(!check_game_over(&a, &vec![far]));
}
