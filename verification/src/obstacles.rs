//! The obstacle pipeline. A gated obstacle pair is spawned off-screen right
//! on a fixed cadence with a randomized gap, drifts leftward at a constant
//! speed, and is retired once it has passed fully off the left edge.

use vstd::prelude::*;
use vstd::seq_lib::group_seq_properties;
use rand::Rng;
use crate::params::{
    COORD_LIMIT, GAP_BOTTOM_END, GAP_BOTTOM_MIN, PIPE_GAP, PIPE_HEIGHT, RETIRE_X, SPAWN_X, SPEED,
};

verus! {

/// One gated obstacle pair. Its two members — the upper and the lower
/// obstruction — always share this one x-coordinate; `gap_bottom` and
/// `gap_top` bound the open gap between them, fixed at spawn time. Both
/// members move left by `SPEED` every frame.
#[derive(Clone, Copy, PartialEq, Eq, Structural, Debug)]
pub struct ObstaclePair {
    pub x: i64,
    pub gap_bottom: i64,
    pub gap_top: i64,
}

impl ObstaclePair {
    /// Well-formedness of a pair: the gap is exactly `PIPE_GAP` tall, its
    /// bottom keeps the spawn-time margin from both viewport edges, and
    /// the pair sits no further right than where pairs are spawned.
    pub open spec fn wf(self) -> bool {
        self.gap_top == self.gap_bottom + PIPE_GAP
        && GAP_BOTTOM_MIN <= self.gap_bottom < GAP_BOTTOM_END
        && self.x <= SPAWN_X
    }

    /// The pair one frame later: one `SPEED` further left.
    pub open spec fn moved(self) -> ObstaclePair {
        ObstaclePair { x: (self.x - SPEED) as i64, ..self }
    }

    /// Whether the pair has passed fully off the left viewport edge and is
    /// due for retirement.
    pub open spec fn retired(self) -> bool {
        self.x < RETIRE_X
    }

    /// Anchor height of the upper member, for the renderer: its graphic
    /// hangs from there down to `gap_top`.
    pub fn upper_y(&self) -> (y: i64)
        requires
            self.wf(),
        ensures
            y == self.gap_top + PIPE_HEIGHT,
    {
        self.gap_top + PIPE_HEIGHT
    }

    /// Anchor height of the lower member, for the renderer: its graphic
    /// hangs from there downward.
    pub fn lower_y(&self) -> (y: i64)
        ensures
            y == self.gap_bottom,
    {
        self.gap_bottom
    }
}

/// Every pair of the sequence is well formed.
pub open spec fn all_wf(s: Seq<ObstaclePair>) -> bool {
    forall|i: int| 0 <= i < s.len() ==> (#[trigger] s[i]).wf()
}

/// Every pair of the sequence has an x-coordinate far enough from the
/// bottom of `i64` for one frame of movement.
pub open spec fn all_fit(s: Seq<ObstaclePair>) -> bool {
    forall|i: int| 0 <= i < s.len() ==> -COORD_LIMIT <= (#[trigger] s[i]).x
}

/// The retirement predicate: the pairs that stay are those that have not
/// crossed the retirement line.
pub open spec fn keep(p: ObstaclePair) -> bool {
    !p.retired()
}

/// Relies on `rand::Rng::gen_range` on `rand::thread_rng`: a sample drawn
/// uniformly from the half-open range `lo..hi`. It panics only on an empty
/// range, which the precondition excludes. Nothing beyond the bounds can be
/// promised of a random draw.
#[verifier::external_body]
pub(crate) fn random_in_range(lo: i64, hi: i64) -> (r: i64)
    requires
        lo < hi,
    ensures
        lo <= r < hi,
{
    rand::thread_rng().gen_range(lo..hi)
}

/// Append a new pair at the spawn line with the given gap-bottom. The
/// existing pairs are untouched.
pub fn spawn_pair_at(obstacles: &mut Vec<ObstaclePair>, gap_bottom: i64)
    requires
        GAP_BOTTOM_MIN <= gap_bottom < GAP_BOTTOM_END,
    ensures
        final(obstacles)@ == old(obstacles)@.push(ObstaclePair {
            x: SPAWN_X,
            gap_bottom,
            gap_top: (gap_bottom + PIPE_GAP) as i64,
        }),
        final(obstacles)@.last().wf(),
{
    let pair = ObstaclePair { x: SPAWN_X, gap_bottom, gap_top: gap_bottom + PIPE_GAP };
    obstacles.push(pair);
}

/// Spawn one pair with a randomized gap: the gap-bottom is drawn from
/// `[GAP_BOTTOM_MIN, GAP_BOTTOM_END)`, so the gap never touches the floor
/// or the ceiling, and the gap is always exactly `PIPE_GAP` tall. Returns
/// the drawn gap-bottom.
pub fn spawn_pair(obstacles: &mut Vec<ObstaclePair>) -> (gap_bottom: i64)
    ensures
        GAP_BOTTOM_MIN <= gap_bottom < GAP_BOTTOM_END,
        final(obstacles)@ == old(obstacles)@.push(ObstaclePair {
            x: SPAWN_X,
            gap_bottom,
            gap_top: (gap_bottom + PIPE_GAP) as i64,
        }),
{
    let gap_bottom = random_in_range(GAP_BOTTOM_MIN, GAP_BOTTOM_END);
    spawn_pair_at(obstacles, gap_bottom);
    gap_bottom
}

/// The retirement pass: a pair is removed if and only if its x has crossed
/// below `RETIRE_X`; the surviving pairs keep their order. So no pair is
/// retired early, and none that has crossed the line outlives the pass.
pub fn retire_obstacles(obstacles: &mut Vec<ObstaclePair>)
    ensures
        final(obstacles)@ == old(obstacles)@.filter(|p: ObstaclePair| keep(p)),
        forall|i: int| 0 <= i < final(obstacles)@.len()
            ==> !(#[trigger] final(obstacles)@[i]).retired(),
        forall|i: int| 0 <= i < final(obstacles)@.len()
            ==> old(obstacles)@.contains(#[trigger] final(obstacles)@[i]),
{
    broadcast use group_seq_properties;
    broadcast use Seq::lemma_filter_push;

    let ghost orig = obstacles@;
    let mut kept: Vec<ObstaclePair> = Vec::new();
    let mut i: usize = 0;
    proof {
        assert(orig.take(0).filter(|p: ObstaclePair| keep(p)) =~= Seq::<ObstaclePair>::empty());
    }
    while i < obstacles.len()
        invariant
            i <= obstacles.len(),
            obstacles@ == orig,
            kept@ == orig.take(i as int).filter(|p: ObstaclePair| keep(p)),
            forall|k: int| 0 <= k < kept@.len() ==> orig.contains(#[trigger] kept@[k]),
        decreases obstacles.len() - i,
    {
        let p = obstacles[i];
        proof {
            let pred = |p: ObstaclePair| keep(p);
            assert(orig.take(i + 1) =~= orig.take(i as int).push(orig[i as int]));
            orig.take(i as int).lemma_filter_push(orig[i as int], pred);
        }
        if p.x >= RETIRE_X {
            kept.push(p);
        }
        i = i + 1;
    }
    proof {
        assert(orig.take(orig.len() as int) =~= orig);
    }
    *obstacles = kept;
    proof {
        let f = orig.filter(|p: ObstaclePair| keep(p));
        assert forall|j: int| 0 <= j < f.len() implies !(#[trigger] f[j]).retired() by {
            orig.lemma_filter_pred(|p: ObstaclePair| keep(p), j);
        }
    }
}

/// One frame of obstacle movement: every pair moves `SPEED` to the left;
/// nothing is added or removed.
pub fn move_obstacles(obstacles: &mut Vec<ObstaclePair>)
    requires
        all_fit(old(obstacles)@),
    ensures
        final(obstacles)@ == old(obstacles)@.map_values(|p: ObstaclePair| p.moved()),
{
    let ghost orig = obstacles@;
    let mut i: usize = 0;
    while i < obstacles.len()
        invariant
            i <= obstacles.len(),
            obstacles@.len() == orig.len(),
            all_fit(orig),
            forall|j: int| 0 <= j < i ==> obstacles@[j] == (#[trigger] orig[j]).moved(),
            forall|j: int| i <= j < orig.len() ==> #[trigger] obstacles@[j] == orig[j],
        decreases obstacles.len() - i,
    {
        let p = obstacles[i];
        obstacles.set(i, ObstaclePair { x: p.x - SPEED, ..p });
        i = i + 1;
    }
    proof {
        assert(obstacles@ =~= orig.map_values(|p: ObstaclePair| p.moved()));
    }
}

} // verus!
