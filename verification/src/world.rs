//! The whole game world and its per-frame step: the game-mode state
//! machine, the scheduler's two fixed cadences, and the systems they drive.
//!
//! One call of [`World::frame`] is one scheduler step. The systems run in a
//! fixed declared order: scrolling; the menu start trigger; the fixed-rate
//! obstacle spawn-and-retire pass and collision evaluation; flap and
//! gravity; movement; the sprite-frame ticker; and last the game-mode
//! transition, whose entry into Menu resets the avatar and clears the
//! obstacles.

use vstd::prelude::*;
use crate::avatar::{gravity_delta, Avatar};
use crate::collision::{check_game_over, game_over_now};
use crate::obstacles::{
    all_fit, all_wf, keep, move_obstacles, random_in_range, retire_obstacles, spawn_pair_at,
    ObstaclePair,
};
use crate::params::{
    BACKGROUND_SEGMENT_WIDTH, BACKGROUND_SPEED, BACKGROUND_Y, COLLISION_CADENCE_MS,
    COORD_LIMIT, FLAP_SPEED, FLOOR_SEGMENT_WIDTH, FLOOR_Y, GAP_BOTTOM_END, GAP_BOTTOM_MIN,
    HALF_WIDTH, MAX_FRAME_MS,
    PIPE_CADENCE_MS, PIPE_GAP, SPAWN_X, SPEED,
};
use crate::scroll::ScrollLayer;
use crate::timing::Cadence;

verus! {

/// The game mode: the coarse state that gates which systems run. The loop
/// starts in `Menu`; a flap there starts play, and any collision or
/// grounding-out in play returns to `Menu`.
#[derive(Clone, Copy, PartialEq, Eq, Structural, Debug)]
pub enum GameMode {
    Menu,
    InGame,
}

/// The entity store: the one avatar, the live obstacle pairs, the two
/// scroll layers, and the scheduler's two fixed cadences.
#[derive(Debug)]
pub struct World {
    pub mode: GameMode,
    pub avatar: Avatar,
    pub obstacles: Vec<ObstaclePair>,
    pub ground: ScrollLayer,
    pub backdrop: ScrollLayer,
    pub spawn_cadence: Cadence,
    pub collision_cadence: Cadence,
}

/// The pair that a spawn with the given gap-bottom creates, at the spawn
/// line, its gap exactly `PIPE_GAP` tall.
pub open spec fn spawned_pair(gap_bottom: i64) -> ObstaclePair {
    ObstaclePair { x: SPAWN_X, gap_bottom, gap_top: (gap_bottom + PIPE_GAP) as i64 }
}

/// The obstacle store after the fixed-rate pipeline pass of one frame:
/// when the spawn cadence fired during play, one new pair is appended and
/// every pair past the retirement line is removed; otherwise nothing
/// happens.
pub open spec fn obstacles_after_pipeline(
    obs: Seq<ObstaclePair>, in_game: bool, spawn_fired: bool, gap_bottom: i64,
) -> Seq<ObstaclePair> {
    if in_game && spawn_fired {
        obs.push(spawned_pair(gap_bottom)).filter(|p: ObstaclePair| keep(p))
    } else {
        obs
    }
}

/// The avatar after one frame of input and physics: during play a flap
/// overwrites the vertical velocity with `FLAP_SPEED`, then gravity takes
/// `gravity_delta(dt_ms)` off it; outside play neither runs.
pub open spec fn avatar_after_physics(a: Avatar, in_game: bool, flap: bool, dt_ms: u64) -> Avatar {
    if in_game {
        let vy_flapped: int = if flap { FLAP_SPEED as int } else { a.vy as int };
        Avatar { vy: (vy_flapped - gravity_delta(dt_ms)) as i64, ..a }
    } else {
        a
    }
}

/// The avatar after the movement pass: the position advances by the
/// per-frame velocity.
pub open spec fn avatar_after_move(a: Avatar) -> Avatar {
    Avatar { x: (a.x + a.vx) as i64, y: (a.y + a.vy) as i64, ..a }
}

/// The exact effect of one frame, given the gap-bottom `gap_bottom` that a
/// spawn this frame would use. Every field of the post-state is pinned:
/// the scroll layers and cadences always advance; during play the obstacle
/// pipeline and physics run as their own specs say; the collision pass, on
/// its cadence, evaluates the world as the pipeline left it, and a hit or
/// grounding-out enters `Menu`, resetting the avatar's height and velocity
/// and clearing every obstacle; in `Menu` a flap enters play unchanged.
pub open spec fn frame_post(pre: World, post: World, dt_ms: u64, flap: bool, gap_bottom: i64) -> bool {
    let in_game = pre.mode == GameMode::InGame;
    let spawn_fired = pre.spawn_cadence.fires(dt_ms);
    let col_fired = pre.collision_cadence.fires(dt_ms);
    let obs_pipeline = obstacles_after_pipeline(pre.obstacles@, in_game, spawn_fired, gap_bottom);
    let game_over = in_game && col_fired && game_over_now(pre.avatar, obs_pipeline);
    let a_moved = avatar_after_move(avatar_after_physics(pre.avatar, in_game, flap, dt_ms));
    let a_frame = Avatar { anim: pre.avatar.anim.stepped(dt_ms), ..a_moved };
    let obs_moved = obs_pipeline.map_values(|p: ObstaclePair| p.moved());
    &&& post.mode == (if game_over {
            GameMode::Menu
        } else if pre.mode == GameMode::Menu && flap {
            GameMode::InGame
        } else {
            pre.mode
        })
    &&& post.avatar == (if game_over {
            Avatar { y: 0i64, vx: 0i64, vy: 0i64, ..a_frame }
        } else {
            a_frame
        })
    &&& post.obstacles@ == (if game_over { Seq::<ObstaclePair>::empty() } else { obs_moved })
    &&& post.ground == pre.ground.stepped()
    &&& post.backdrop == pre.backdrop.stepped()
    &&& post.spawn_cadence == pre.spawn_cadence.stepped(dt_ms)
    &&& post.collision_cadence == pre.collision_cadence.stepped(dt_ms)
}

impl World {
    /// Well-formedness of the world: every component keeps its own
    /// invariant.
    pub open spec fn wf(self) -> bool {
        self.avatar.wf()
        && all_wf(self.obstacles@)
        && self.ground.wf()
        && self.backdrop.wf()
        && self.spawn_cadence.wf()
        && self.collision_cadence.wf()
    }

    /// Whether one frame's arithmetic on this world stays within `i64`.
    pub open spec fn fits(self) -> bool {
        self.avatar.fits() && all_fit(self.obstacles@)
    }

    /// The world as created at startup: in `Menu`, the avatar at its start
    /// position at rest, no obstacles, the ground and backdrop layers in
    /// place, and both fixed cadences fresh.
    pub fn new() -> (w: World)
        ensures
            w.mode == GameMode::Menu,
            w.avatar == Avatar::spec_start(),
            w.obstacles@ == Seq::<ObstaclePair>::empty(),
            w.ground.width == FLOOR_SEGMENT_WIDTH,
            w.ground.speed == -SPEED,
            w.ground.y == FLOOR_Y,
            w.ground.x_a == -HALF_WIDTH + FLOOR_SEGMENT_WIDTH,
            w.ground.x_b == -HALF_WIDTH,
            w.backdrop.width == BACKGROUND_SEGMENT_WIDTH,
            w.backdrop.speed == -BACKGROUND_SPEED,
            w.backdrop.y == BACKGROUND_Y,
            w.backdrop.x_a == -HALF_WIDTH + BACKGROUND_SEGMENT_WIDTH,
            w.backdrop.x_b == -HALF_WIDTH,
            w.spawn_cadence == (Cadence { period_ms: PIPE_CADENCE_MS, elapsed_ms: 0u64 }),
            w.collision_cadence == (Cadence { period_ms: COLLISION_CADENCE_MS, elapsed_ms: 0u64 }),
            w.wf(),
            w.fits(),
    {
        World {
            mode: GameMode::Menu,
            avatar: Avatar::new(),
            obstacles: Vec::new(),
            ground: ScrollLayer::new(FLOOR_SEGMENT_WIDTH, -SPEED, FLOOR_Y),
            backdrop: ScrollLayer::new(BACKGROUND_SEGMENT_WIDTH, -BACKGROUND_SPEED, BACKGROUND_Y),
            spawn_cadence: Cadence::new(PIPE_CADENCE_MS),
            collision_cadence: Cadence::new(COLLISION_CADENCE_MS),
        }
    }

    /// The menu-entry hook, the sole place the avatar is reset: its height
    /// and both velocity components become zero (its x stays), and every
    /// obstacle is destroyed. Everything else is untouched.
    pub fn enter_menu(&mut self)
        ensures
            final(self).avatar == (Avatar { y: 0i64, vx: 0i64, vy: 0i64, ..old(self).avatar }),
            final(self).obstacles@ == Seq::<ObstaclePair>::empty(),
            final(self).mode == old(self).mode,
            final(self).ground == old(self).ground,
            final(self).backdrop == old(self).backdrop,
            final(self).spawn_cadence == old(self).spawn_cadence,
            final(self).collision_cadence == old(self).collision_cadence,
    {
        self.avatar.y = 0;
        self.avatar.vx = 0;
        self.avatar.vy = 0;
        self.obstacles.clear();
    }

    /// One scheduler step of `dt_ms` milliseconds with the given flap
    /// signal, the spawn gap drawn by the caller. Deterministic: the
    /// post-state is exactly the one `frame_post` describes.
    pub fn frame_with_gap(&mut self, dt_ms: u64, flap: bool, gap_bottom: i64)
        requires
            old(self).wf(),
            old(self).fits(),
            dt_ms <= MAX_FRAME_MS,
            GAP_BOTTOM_MIN <= gap_bottom < GAP_BOTTOM_END,
        ensures
            frame_post(*old(self), *final(self), dt_ms, flap, gap_bottom),
            final(self).wf(),
    {
        let ghost pre = *self;
        let in_game = self.mode == GameMode::InGame;
        let start_pressed = self.mode == GameMode::Menu && flap;

        // Scrolling runs every frame in every mode.
        self.ground.step();
        self.backdrop.step();

        // The two fixed cadences advance off the same clock every frame.
        let spawn_fired = self.spawn_cadence.tick(dt_ms);
        let col_fired = self.collision_cadence.tick(dt_ms);

        // Obstacle pipeline: spawn, then retire, on the spawn cadence.
        if in_game && spawn_fired {
            spawn_pair_at(&mut self.obstacles, gap_bottom);
            retire_obstacles(&mut self.obstacles);
            proof {
                let obs = pre.obstacles@.push(spawned_pair(gap_bottom));
                assert forall|i: int| 0 <= i < self.obstacles@.len()
                    implies (#[trigger] self.obstacles@[i]).wf()
                        && -COORD_LIMIT <= self.obstacles@[i].x by {
                    let p = self.obstacles@[i];
                    assert(obs.contains(p));
                    let j = choose|j: int| 0 <= j < obs.len() && obs[j] == p;
                    if j < pre.obstacles@.len() {
                        assert(pre.obstacles@[j].wf());
                        assert(-COORD_LIMIT <= pre.obstacles@[j].x);
                    }
                }
            }
        }
        let ghost obs_pipeline = self.obstacles@;
        proof {
            assert(all_wf(obs_pipeline));
            assert(all_fit(obs_pipeline));
        }

        // Collision evaluation, on its own cadence, during play only; it
        // sees positions as the pipeline left them — neither this frame's
        // physics nor its movement has touched a position yet.
        let mut game_over = false;
        if in_game && col_fired {
            game_over = check_game_over(&self.avatar, &self.obstacles);
        }

        // Input and physics, during play only.
        if in_game && flap {
            self.avatar.flap();
        }
        if in_game {
            self.avatar.apply_gravity(dt_ms);
        }

        // Movement integrates every velocity into its position.
        self.avatar.integrate();
        move_obstacles(&mut self.obstacles);
        proof {
            assert forall|i: int| 0 <= i < self.obstacles@.len()
                implies (#[trigger] self.obstacles@[i]).wf() by {
                assert(self.obstacles@[i] == obs_pipeline[i].moved());
                assert(obs_pipeline[i].wf());
            }
        }

        // The sprite-frame ticker runs every frame.
        self.avatar.anim.tick(dt_ms);

        // Game-mode transition, applied at the end of the step; entering
        // Menu runs the reset hook.
        if game_over {
            self.mode = GameMode::Menu;
            self.enter_menu();
        } else if start_pressed {
            self.mode = GameMode::InGame;
        }
    }

    /// One scheduler step with a randomized spawn gap, as the game itself
    /// runs it: the gap-bottom is drawn uniformly from
    /// `[GAP_BOTTOM_MIN, GAP_BOTTOM_END)` and returned; a frame on which
    /// the spawn cadence does not fire ignores it.
    pub fn frame(&mut self, dt_ms: u64, flap: bool) -> (gap_bottom: i64)
        requires
            old(self).wf(),
            old(self).fits(),
            dt_ms <= MAX_FRAME_MS,
        ensures
            GAP_BOTTOM_MIN <= gap_bottom < GAP_BOTTOM_END,
            frame_post(*old(self), *final(self), dt_ms, flap, gap_bottom),
            final(self).wf(),
    {
        let gap_bottom = random_in_range(GAP_BOTTOM_MIN, GAP_BOTTOM_END);
        self.frame_with_gap(dt_ms, flap, gap_bottom);
        gap_bottom
    }
}

} // verus!
