//! The avatar: the one controllable entity. It falls under gravity, is
//! boosted upward by a flap, moves by its per-frame velocity, and carries a
//! cyclic sprite-frame counter for the renderer.

use vstd::prelude::*;
use crate::params::{
    ANIM_FIRST_FRAME, ANIM_LAST_FRAME, ANIM_PERIOD_MS, AVATAR_START_X, COORD_LIMIT,
    FLAP_SPEED, GRAVITY_PER_SECOND, MAX_FRAME_MS,
};
use crate::timing::Cadence;

verus! {

/// The avatar's cyclic sprite-frame counter: a repeating timer that, on each
/// expiry, advances `index` through `[first, last]` and wraps back to
/// `first` after `last`. Purely presentational.
#[derive(Clone, Copy, PartialEq, Eq, Structural, Debug)]
pub struct Anim {
    pub first: u32,
    pub last: u32,
    pub index: u32,
    pub timer: Cadence,
}

impl Anim {
    /// The frame index stays within the cycle and the timer is well formed.
    pub open spec fn wf(self) -> bool {
        self.first <= self.index <= self.last && self.timer.wf()
    }

    /// The next frame index of the cycle: one further, wrapping to `first`
    /// after `last`.
    pub open spec fn next_index(self) -> u32 {
        if self.index == self.last {
            self.first
        } else {
            (self.index + 1) as u32
        }
    }

    /// The counter after one frame of `dt_ms`: the timer advances, and the
    /// frame index moves one step on when the timer fires — at most one
    /// step per frame, however much time passed.
    pub open spec fn stepped(self, dt_ms: u64) -> Anim {
        Anim {
            first: self.first,
            last: self.last,
            index: if self.timer.fires(dt_ms) { self.next_index() } else { self.index },
            timer: self.timer.stepped(dt_ms),
        }
    }

    /// The avatar's own cycle: frames `0..=3`, advancing every tenth of a
    /// second.
    pub fn new() -> (a: Anim)
        ensures
            a == (Anim {
                first: ANIM_FIRST_FRAME,
                last: ANIM_LAST_FRAME,
                index: ANIM_FIRST_FRAME,
                timer: Cadence { period_ms: ANIM_PERIOD_MS, elapsed_ms: 0u64 },
            }),
            a.wf(),
    {
        Anim {
            first: ANIM_FIRST_FRAME,
            last: ANIM_LAST_FRAME,
            index: ANIM_FIRST_FRAME,
            timer: Cadence::new(ANIM_PERIOD_MS),
        }
    }

    /// Advance the counter by one frame of `dt_ms`.
    pub fn tick(&mut self, dt_ms: u64)
        requires
            old(self).wf(),
            dt_ms <= MAX_FRAME_MS,
        ensures
            *final(self) == old(self).stepped(dt_ms),
            final(self).wf(),
    {
        let fired = self.timer.tick(dt_ms);
        if fired {
            self.index = if self.index == self.last { self.first } else { self.index + 1 };
        }
    }
}

/// The avatar. Position and velocity are milliunit fixed-point values;
/// velocity is a per-frame displacement. The avatar never moves
/// horizontally: its horizontal velocity is zero throughout its life.
#[derive(Clone, Copy, PartialEq, Eq, Structural, Debug)]
pub struct Avatar {
    pub x: i64,
    pub y: i64,
    pub vx: i64,
    pub vy: i64,
    pub anim: Anim,
}

/// Bound on the vertical velocity after one frame of physics on an avatar
/// within `COORD_LIMIT`: gravity can take at most `GRAVITY_PER_SECOND x
/// MAX_FRAME_MS / 1000 < 10^10` off it in one frame.
pub const VEL_LIMIT: i64 = 1_000_010_000_000_000;

/// The per-frame velocity loss from gravity over `dt_ms` of frame time:
/// `GRAVITY_PER_SECOND x dt` scaled from milliseconds to seconds, rounded
/// toward zero.
pub open spec fn gravity_delta(dt_ms: u64) -> int {
    (GRAVITY_PER_SECOND * dt_ms) / 1000
}

impl Avatar {
    /// The avatar is well formed when it has no horizontal velocity and its
    /// sprite counter is well formed.
    pub open spec fn wf(self) -> bool {
        self.vx == 0 && self.anim.wf()
    }

    /// Whether one frame's physics on this avatar stays within `i64`.
    pub open spec fn fits(self) -> bool {
        -COORD_LIMIT <= self.x <= COORD_LIMIT
        && -COORD_LIMIT <= self.y <= COORD_LIMIT
        && -COORD_LIMIT <= self.vy <= COORD_LIMIT
    }

    /// The avatar's startup value: at the fixed start position, at rest,
    /// with a fresh sprite cycle.
    pub open spec fn spec_start() -> Avatar {
        Avatar {
            x: AVATAR_START_X,
            y: 0i64,
            vx: 0i64,
            vy: 0i64,
            anim: Anim {
                first: ANIM_FIRST_FRAME,
                last: ANIM_LAST_FRAME,
                index: ANIM_FIRST_FRAME,
                timer: Cadence { period_ms: ANIM_PERIOD_MS, elapsed_ms: 0u64 },
            },
        }
    }

    /// The avatar as created at startup: at the fixed start position, at
    /// rest, with a fresh sprite cycle.
    pub fn new() -> (a: Avatar)
        ensures
            a == Avatar::spec_start(),
            a.wf(),
            a.fits(),
    {
        Avatar { x: AVATAR_START_X, y: 0, vx: 0, vy: 0, anim: Anim::new() }
    }

    /// A flap: the vertical velocity becomes exactly the flap constant,
    /// overwriting — not adding to — whatever it was before.
    pub fn flap(&mut self)
        ensures
            *final(self) == (Avatar { vy: FLAP_SPEED, ..*old(self) }),
            final(self).vy == FLAP_SPEED,
    {
        self.vy = FLAP_SPEED;
    }

    /// One frame of gravity: the vertical velocity drops by exactly
    /// `gravity_delta(dt_ms)`; nothing else changes.
    pub fn apply_gravity(&mut self, dt_ms: u64)
        requires
            old(self).fits(),
            dt_ms <= MAX_FRAME_MS,
        ensures
            *final(self) == (Avatar { vy: (old(self).vy - gravity_delta(dt_ms)) as i64, ..*old(self) }),
            final(self).vy == old(self).vy - gravity_delta(dt_ms),
    {
        let delta: i64 = ((GRAVITY_PER_SECOND as u64 * dt_ms) / 1000) as i64;
        self.vy = self.vy - delta;
    }

    /// One frame of movement: the position advances by the per-frame
    /// velocity on each axis; the velocity is unchanged.
    pub fn integrate(&mut self)
        requires
            -COORD_LIMIT <= old(self).x <= COORD_LIMIT,
            -COORD_LIMIT <= old(self).y <= COORD_LIMIT,
            -COORD_LIMIT <= old(self).vx <= COORD_LIMIT,
            -VEL_LIMIT <= old(self).vy <= VEL_LIMIT,
        ensures
            *final(self) == (Avatar {
                x: (old(self).x + old(self).vx) as i64,
                y: (old(self).y + old(self).vy) as i64,
                ..*old(self)
            }),
    {
        self.x = self.x + self.vx;
        self.y = self.y + self.vy;
    }

    /// The tilt shown by the renderer, in millidegrees: proportional to the
    /// vertical velocity, `vy / 5` world units mapping to 45 degrees. It is
    /// derived, never stored, and has no physical consequence.
    pub fn tilt_millidegrees(&self) -> (r: i64)
        requires
            self.fits(),
        ensures
            r == 9 * self.vy,
    {
        9 * self.vy
    }
}

} // verus!
