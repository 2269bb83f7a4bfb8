//! Seamless infinite scrolling. Each layer (ground or backdrop) owns exactly
//! two segments of one width, kept one segment width apart. Every frame both
//! segments move by the layer's speed; a segment that has scrolled fully off
//! the left edge snaps two widths to the right, behind its partner.

use vstd::prelude::*;
use crate::params::HALF_WIDTH;

verus! {

/// Largest admissible segment width.
pub const MAX_SEGMENT_WIDTH: i64 = 1_000_000_000_000;

/// The wrap rule for one segment of the given width: a segment whose x has
/// dropped below `-HALF_WIDTH - width` moves `2 * width` to the right;
/// any other segment stays put.
pub open spec fn wrapped(x: int, width: int) -> int {
    if x < -HALF_WIDTH - width {
        x + 2 * width
    } else {
        x
    }
}

/// One scrolling layer: two segments of one width and one speed, at a fixed
/// height `y`. Only the segments' x-positions ever change.
#[derive(Clone, Copy, PartialEq, Eq, Structural, Debug)]
pub struct ScrollLayer {
    pub width: i64,
    pub speed: i64,
    pub y: i64,
    pub x_a: i64,
    pub x_b: i64,
}

impl ScrollLayer {
    /// Well-formedness of a layer: a positive bounded width, a leftward (or
    /// zero) speed of at most two widths per frame, both segments inside
    /// the band that the wrap rule keeps them in, and — the seamlessness
    /// invariant — the two segments exactly one width apart.
    pub open spec fn wf(self) -> bool {
        1 <= self.width <= MAX_SEGMENT_WIDTH
        && -2 * self.width <= self.speed <= 0
        && -HALF_WIDTH - self.width <= self.x_a <= -HALF_WIDTH + self.width
        && -HALF_WIDTH - self.width <= self.x_b <= -HALF_WIDTH + self.width
        && (self.x_a - self.x_b == self.width || self.x_b - self.x_a == self.width)
    }

    /// The layer after one frame: both segments move by the speed, then the
    /// wrap rule is applied to each.
    pub open spec fn stepped(self) -> ScrollLayer {
        ScrollLayer {
            x_a: wrapped(self.x_a + self.speed, self.width as int) as i64,
            x_b: wrapped(self.x_b + self.speed, self.width as int) as i64,
            ..self
        }
    }

    /// A fresh layer: segment `a` one width right of the left viewport
    /// edge, segment `b` at the left viewport edge.
    pub fn new(width: i64, speed: i64, y: i64) -> (l: ScrollLayer)
        requires
            1 <= width <= MAX_SEGMENT_WIDTH,
            -2 * width <= speed <= 0,
        ensures
            l == (ScrollLayer {
                width,
                speed,
                y,
                x_a: (-HALF_WIDTH + width) as i64,
                x_b: (-HALF_WIDTH) as i64,
            }),
            l.wf(),
    {
        ScrollLayer { width, speed, y, x_a: -HALF_WIDTH + width, x_b: -HALF_WIDTH }
    }

    /// One frame of scrolling: move both segments by the speed, snapping a
    /// segment that left the viewport two widths to the right. The layer
    /// stays well formed; in particular the segments stay exactly one
    /// width apart.
    pub fn step(&mut self)
        requires
            old(self).wf(),
        ensures
            *final(self) == old(self).stepped(),
            final(self).wf(),
    {
        self.x_a = self.x_a + self.speed;
        if self.x_a < -HALF_WIDTH - self.width {
            self.x_a = self.x_a + 2 * self.width;
        }
        self.x_b = self.x_b + self.speed;
        if self.x_b < -HALF_WIDTH - self.width {
            self.x_b = self.x_b + 2 * self.width;
        }
    }
}

/// Seamlessness: one frame of scrolling keeps a well-formed layer's two
/// segments exactly one segment width apart, whichever of them wrapped.
pub proof fn lemma_step_keeps_offset(l: ScrollLayer)
    requires
        l.wf(),
    ensures
        l.stepped().x_a - l.stepped().x_b == l.width
            || l.stepped().x_b - l.stepped().x_a == l.width,
{
}

/// The wrap rule settles in one application: once a segment has moved at
/// most two widths below the wrap line — and one frame under a well-formed
/// layer moves it no further — wrapping a second time changes nothing.
pub proof fn lemma_wrap_idempotent(x: int, width: int)
    requires
        1 <= width,
        -HALF_WIDTH - 3 * width <= x,
    ensures
        wrapped(wrapped(x, width), width) == wrapped(x, width),
{
}

/// After a scroll step of a well-formed layer, both segments sit at or
/// above the wrap line, so wrapping again without intervening movement is a
/// no-op: the seam cannot be snapped twice.
pub proof fn lemma_step_wrap_noop(l: ScrollLayer)
    requires
        l.wf(),
    ensures
        wrapped(l.stepped().x_a as int, l.width as int) == l.stepped().x_a,
        wrapped(l.stepped().x_b as int, l.width as int) == l.stepped().x_b,
{
}

} // verus!
