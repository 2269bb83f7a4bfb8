//! The fixed world parameters, in milliunits (1/1000 of a world unit).
//!
//! The viewport is a 400 x 700 unit window centred on the origin. Obstacle
//! pairs and the ground scroll leftward at a constant per-frame speed; the
//! backdrop scrolls at a fifth of that speed as a parallax cue.

use vstd::prelude::*;

verus! {

/// Scale of the fixed-point representation: milliunits per world unit.
pub const MILLI: i64 = 1000;

/// Logical viewport width.
pub const WINDOW_WIDTH: i64 = 400_000;
/// Logical viewport height.
pub const WINDOW_HEIGHT: i64 = 700_000;
/// Half the viewport width; the viewport is centred on the origin.
pub const HALF_WIDTH: i64 = 200_000;
/// Half the viewport height.
pub const HALF_HEIGHT: i64 = 350_000;

/// Leftward scroll speed of obstacles and ground, per frame.
pub const SPEED: i64 = 4500;
/// Vertical velocity set by a flap, per frame.
pub const FLAP_SPEED: i64 = 4500;
/// Downward acceleration, in milliunits per frame per second of frame time.
pub const GRAVITY_PER_SECOND: i64 = 9800;

/// Vertical extent of the open gap between the members of an obstacle pair.
pub const PIPE_GAP: i64 = 150_000;
/// Height of one obstacle graphic.
pub const PIPE_HEIGHT: i64 = 480_000;
/// Width of one obstacle graphic.
pub const PIPE_WIDTH: i64 = 78_000;
/// The gap may come no closer than this to the top or bottom viewport edge.
pub const MIN_PIPE_OFFSET: i64 = 100_000;
/// x-coordinate at which a new obstacle pair appears, off-screen right.
pub const SPAWN_X: i64 = 400_000;
/// Least admissible gap-bottom y of a spawned pair.
pub const GAP_BOTTOM_MIN: i64 = -250_000;
/// Exclusive upper bound on the gap-bottom y of a spawned pair.
pub const GAP_BOTTOM_END: i64 = 100_000;
/// An obstacle whose x has crossed below this line is retired.
pub const RETIRE_X: i64 = -278_000;

/// Width of one ground segment.
pub const FLOOR_SEGMENT_WIDTH: i64 = 504_000;
/// Height of the ground graphic above the bottom viewport edge.
pub const FLOOR_HEIGHT: i64 = 50_000;
/// Width of one backdrop segment.
pub const BACKGROUND_SEGMENT_WIDTH: i64 = 432_000;
/// Leftward scroll speed of the backdrop, per frame: a fifth of `SPEED`.
pub const BACKGROUND_SPEED: i64 = 900;
/// y-coordinate of the ground segments' anchor.
pub const FLOOR_Y: i64 = -300_000;
/// y-coordinate of the backdrop segments' anchor.
pub const BACKGROUND_Y: i64 = 350_000;
/// The avatar is grounded out once its y falls below this line.
pub const FLOOR_LINE: i64 = -300_000;

/// Half-extent of the avatar's square bounding box, on each axis.
pub const AVATAR_HALF_EXTENT: i64 = 45_000;
/// x-coordinate at which the avatar is created; it never moves horizontally.
pub const AVATAR_START_X: i64 = -150_000;

/// Period of the obstacle spawn-and-retire cadence.
pub const PIPE_CADENCE_MS: u64 = 1000;
/// Period of the collision-evaluation cadence: a thirtieth of a second.
pub const COLLISION_CADENCE_MS: u64 = 33;
/// Period of the avatar's sprite-frame timer.
pub const ANIM_PERIOD_MS: u64 = 100;
/// First sprite-frame index of the avatar's cycle.
pub const ANIM_FIRST_FRAME: u32 = 0;
/// Last sprite-frame index of the avatar's cycle.
pub const ANIM_LAST_FRAME: u32 = 3;

/// Largest frame time, in milliseconds, that one simulation step accepts.
pub const MAX_FRAME_MS: u64 = 1_000_000_000;
/// Coordinates and velocities handed to a simulation step must lie within
/// this bound, so that one step's arithmetic cannot overflow an `i64`.
pub const COORD_LIMIT: i64 = 1_000_000_000_000_000;

} // verus!
