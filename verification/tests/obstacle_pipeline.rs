use flappy_core::obstacles::{
    move_obstacles, retire_obstacles, spawn_pair, spawn_pair_at, ObstaclePair,
};
use flappy_core::params::{
    GAP_BOTTOM_END, GAP_BOTTOM_MIN, PIPE_GAP, RETIRE_X, SPAWN_X, SPEED,
};

fn pair_at(x: i64, gap_bottom: i64) -> ObstaclePair {
    ObstaclePair { x, gap_bottom, gap_top: gap_bottom + PIPE_GAP }
}

#[test]
fn spawned_pair_has_the_fixed_gap() {
    let mut obs: Vec<ObstaclePair> = Vec::new();
    spawn_pair_at(&mut obs, -150_000);
    assert_eq!(obs.len(), 1);
    assert_eq!(obs[0].x, SPAWN_X);
    assert_eq!(obs[0].gap_bottom, -150_000);
    assert_eq!(obs[0].gap_top - obs[0].gap_bottom, PIPE_GAP);
}

#[test]
fn random_spawns_stay_within_the_margins() {
    // Whatever the random source yields, the gap-bottom keeps its bounds
    // and the gap its fixed size.
    let mut obs: Vec<ObstaclePair> = Vec::new();
    for _ in 0..100 {
        let gap_bottom = spawn_pair(&mut obs);
        assert!(GAP_BOTTOM_MIN <= gap_bottom && gap_bottom < GAP_BOTTOM_END);
        let last = obs[obs.len() - 1];
        assert_eq!(last.gap_bottom, gap_bottom);
        assert_eq!(last.gap_top - last.gap_bottom, PIPE_GAP);
        assert_eq!(last.x, SPAWN_X);
    }
    assert_eq!(obs.len(), 100);
}

#[test]
fn retirement_is_exactly_at_the_threshold() {
    let mut obs = vec![
        pair_at(RETIRE_X, -100_000),     // on the line: stays
        pair_at(RETIRE_X - 1, -50_000),  // crossed: goes
        pair_at(0, 0),                   // on screen: stays
        pair_at(RETIRE_X - 40_000, 10_000), // long gone: goes
    ];
    retire_obstacles(&mut obs);
    assert_eq!(obs.len(), 2);
    assert_eq!(obs[0].x, RETIRE_X);
    assert_eq!(obs[1].x, 0);
}

#[test]
fn movement_shifts_every_pair_left_by_speed() {
    let mut obs = vec![pair_at(SPAWN_X, -100_000), pair_at(0, 50_000)];
    move_obstacles(&mut obs);
    assert_eq!(obs[0].x, SPAWN_X - SPEED);
    assert_eq!(obs[1].x, -SPEED);
    assert_eq!(obs[0].gap_bottom, -100_000);
    assert_eq!(obs[1].gap_top, 50_000 + PIPE_GAP);
}
