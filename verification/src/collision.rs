//! Collision evaluation: axis-aligned bounding-box tests between the avatar
//! and the obstacles, and the floor check. Overlap is strict on both axes:
//! boxes that exactly touch do not collide.

use vstd::prelude::*;
use crate::avatar::Avatar;
use crate::obstacles::{all_wf, ObstaclePair};
use crate::params::{AVATAR_HALF_EXTENT, COORD_LIMIT, FLOOR_LINE, PIPE_HEIGHT, PIPE_WIDTH};

verus! {

/// Strict overlap of a centred box of the given half-extents with the box
/// `[b_min_x, b_max_x] x [b_min_y, b_max_y]`: a shared area of positive
/// size on both axes. Touching edges (zero margin) do not overlap.
pub open spec fn boxes_overlap(
    a_cx: int, a_cy: int, a_half_x: int, a_half_y: int,
    b_min_x: int, b_max_x: int, b_min_y: int, b_max_y: int,
) -> bool {
    a_cx - a_half_x < b_max_x && a_cx + a_half_x > b_min_x
    && a_cy - a_half_y < b_max_y && a_cy + a_half_y > b_min_y
}

/// The avatar's box against the upper member of a pair, whose box hangs
/// from its anchor: `[x, x + PIPE_WIDTH] x [gap_top, gap_top + PIPE_HEIGHT]`.
pub open spec fn hits_upper(a: Avatar, p: ObstaclePair) -> bool {
    boxes_overlap(
        a.x as int, a.y as int, AVATAR_HALF_EXTENT as int, AVATAR_HALF_EXTENT as int,
        p.x as int, p.x + PIPE_WIDTH, p.gap_top as int, p.gap_top + PIPE_HEIGHT,
    )
}

/// The avatar's box against the lower member of a pair, whose box hangs
/// below its anchor: `[x, x + PIPE_WIDTH] x [gap_bottom - PIPE_HEIGHT, gap_bottom]`.
pub open spec fn hits_lower(a: Avatar, p: ObstaclePair) -> bool {
    boxes_overlap(
        a.x as int, a.y as int, AVATAR_HALF_EXTENT as int, AVATAR_HALF_EXTENT as int,
        p.x as int, p.x + PIPE_WIDTH, p.gap_bottom - PIPE_HEIGHT, p.gap_bottom as int,
    )
}

/// The avatar collides with a pair when it overlaps either member.
pub open spec fn hits_pair(a: Avatar, p: ObstaclePair) -> bool {
    hits_upper(a, p) || hits_lower(a, p)
}

/// The avatar is grounded out once its y is strictly below the floor line.
pub open spec fn grounded_out(a: Avatar) -> bool {
    a.y < FLOOR_LINE
}

/// The game is over when the avatar is grounded out or collides with some
/// obstacle pair.
pub open spec fn game_over_now(a: Avatar, obstacles: Seq<ObstaclePair>) -> bool {
    grounded_out(a) || exists|i: int| 0 <= i < obstacles.len() && hits_pair(a, obstacles[i])
}

/// Exact strict-overlap test of the avatar's box against one pair's two
/// members.
pub fn check_pair(a: &Avatar, p: &ObstaclePair) -> (hit: bool)
    requires
        a.fits(),
        p.wf(),
    ensures
        hit == hits_pair(*a, *p),
{
    let a_min_x = a.x - AVATAR_HALF_EXTENT;
    let a_max_x = a.x + AVATAR_HALF_EXTENT;
    let a_min_y = a.y - AVATAR_HALF_EXTENT;
    let a_max_y = a.y + AVATAR_HALF_EXTENT;
    let in_x = a_min_x < p.x + PIPE_WIDTH && a_max_x > p.x;
    let upper = in_x && a_min_y < p.gap_top + PIPE_HEIGHT && a_max_y > p.gap_top;
    let lower = in_x && a_min_y < p.gap_bottom && a_max_y > p.gap_bottom - PIPE_HEIGHT;
    upper || lower
}

/// The collision pass: reports whether the avatar has grounded out or
/// overlaps any obstacle, stopping at the first hit.
pub fn check_game_over(a: &Avatar, obstacles: &Vec<ObstaclePair>) -> (over: bool)
    requires
        a.fits(),
        all_wf(obstacles@),
    ensures
        over == game_over_now(*a, obstacles@),
{
    if a.y < FLOOR_LINE {
        return true;
    }
    let mut i: usize = 0;
    while i < obstacles.len()
        invariant
            i <= obstacles.len(),
            a.fits(),
            all_wf(obstacles@),
            forall|j: int| 0 <= j < i ==> !hits_pair(*a, #[trigger] obstacles@[j]),
        decreases obstacles.len() - i,
    {
        if check_pair(a, &obstacles[i]) {
            return true;
        }
        i = i + 1;
    }
    false
}

} // verus!
