use flappy_core::params::{
    FLAP_SPEED, PIPE_GAP, SPAWN_X, SPEED,
};
use flappy_core::world::{GameMode, World};

#[test]
fn menu_flap_starts_the_game_without_boosting() {
    let mut w = World::new();
    assert_eq!(w.mode, GameMode::Menu);
    w.frame_with_gap(16, true, 0);
    assert_eq!(w.mode, GameMode::InGame);
    // The starting press is a start signal, not a boost: no physics ran
    // in Menu mode.
    assert_eq!(w.avatar.vy, 0);
    assert_eq!(w.avatar.y, 0);
    assert_eq!(w.obstacles.len(), 0);
}

#[test]
fn flap_in_game_sets_the_flap_velocity_before_gravity() {
    let mut w = World::new();
    w.frame_with_gap(16, true, 0); // enter play
    w.frame_with_gap(33, true, 0);
    // vy was overwritten with the flap constant, then gravity took
    // 9800 * 33 / 1000 = 323 off it; movement then applied it to y.
    assert_eq!(w.avatar.vy, FLAP_SPEED - 323);
    assert_eq!(w.avatar.y, (FLAP_SPEED - 323));
}

#[test]
fn one_second_of_play_spawns_exactly_one_pair() {
    let mut w = World::new();
    w.frame_with_gap(16, true, 0); // enter play
    // Ten frames of 100 ms: the 1-second spawn cadence fires exactly once,
    // on the last of them.
    for i in 0..10 {
        assert_eq!(w.obstacles.len(), 0, "no pair before a full second, frame {i}");
        w.frame_with_gap(100, false, -100_000);
    }
    assert_eq!(w.obstacles.len(), 1);
    let p = w.obstacles[0];
    assert_eq!(p.gap_bottom, -100_000);
    assert_eq!(p.gap_top, -100_000 + PIPE_GAP);
    // Spawned at the spawn line, then moved once by this frame's movement.
    assert_eq!(p.x, SPAWN_X - SPEED);
}

#[test]
fn sustained_fall_reverts_to_menu_with_a_full_reset() {
    let mut w = World::new();
    w.frame_with_gap(16, true, 0); // enter play
    // With no flaps, gravity drives the avatar below the floor line and a
    // collision check then ends the round.
    let mut reverted = false;
    for _ in 0..200 {
        w.frame_with_gap(33, false, -100_000);
        if w.mode == GameMode::Menu {
            reverted = true;
            break;
        }
    }
    assert!(reverted, "the fall never ended the round");
    // Entering Menu reset the avatar and cleared every obstacle.
    assert_eq!(w.avatar.y, 0);
    assert_eq!(w.avatar.vy, 0);
    assert_eq!(w.avatar.vx, 0);
    assert_eq!(w.obstacles.len(), 0);
}

#[test]
fn menu_frames_leave_the_resting_avatar_at_rest() {
    let mut w = World::new();
    for _ in 0..30 {
        w.frame_with_gap(33, false, 0);
    }
    assert_eq!(w.mode, GameMode::Menu);
    assert_eq!(w.avatar.y, 0);
    assert_eq!(w.avatar.vy, 0);
    assert_eq!(w.obstacles.len(), 0);
}

#[test]
fn randomized_frames_keep_the_world_invariants() {
    // Drive the real loop, random gaps included, for a while; whatever the
    // draws were, every live pair keeps the fixed gap and the margins.
    let mut w = World::new();
    w.frame(16, true);
    for i in 0..120 {
        w.frame(33, i % 10 == 0);
        for p in w.obstacles.iter() {
            assert_eq!(p.gap_top - p.gap_bottom, PIPE_GAP);
            assert!(p.x <= SPAWN_X);
        }
    }
}

#[test]
fn game_over_on_an_obstacle_hit() {
    let mut w = World::new();
    w.mode = GameMode::InGame;
    // Put a pair right on the avatar: its upper member starts at the
    // avatar's centre height.
    w.obstacles.push(flappy_core::obstacles::ObstaclePair {
        x: w.avatar.x,
        gap_bottom: -PIPE_GAP,
        gap_top: 0,
    });
    // dt 33 fires the collision cadence at once.
    w.frame_with_gap(33, false, 0);
    assert_eq!(w.mode, GameMode::Menu);
    assert_eq!(w.obstacles.len(), 0);
    assert_eq!(w.avatar.y, 0);
    assert_eq!(w.avatar.vy, 0);
}
