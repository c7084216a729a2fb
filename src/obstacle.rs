use vstd::prelude::*;

use bracket_lib::prelude::RandomNumberGenerator;

use crate::player::{row_of, Player, PlayerModel};
use crate::random::draw_in_range;

verus! {

/// Lowest gap center an obstacle may get.
pub const GAP_CENTER_MIN: i32 = 10;

/// Gap centers lie strictly below this row.
pub const GAP_CENTER_END: i32 = 40;

/// Gap size at score zero; every point scored takes one row off it.
pub const GAP_SIZE_START: i32 = 20;

/// The gap never gets smaller than this.
pub const GAP_SIZE_MIN: i32 = 2;

/// Gap size for a score: `max(2, 20 - score)`.
pub open spec fn gap_size(score: int) -> int {
    if GAP_SIZE_START - score > GAP_SIZE_MIN {
        GAP_SIZE_START - score
    } else {
        GAP_SIZE_MIN as int
    }
}

/// A wall in column `x` with an opening centred on row `gap_y`.
#[derive(Clone, Copy, Debug)]
pub struct Obstacle {
    pub x: i32,
    pub gap_y: i32,
    pub size: i32,
}

impl Obstacle {
    /// The gap size lies between its floor and its size at score zero.
    pub open spec fn wf(&self) -> bool {
        GAP_SIZE_MIN <= self.size <= GAP_SIZE_START
    }

    /// Half the gap size, rounded down.
    pub open spec fn half_size(&self) -> int {
        self.size / 2
    }

    /// The player is in this obstacle's column and outside its gap window.
    pub open spec fn collides(&self, p: PlayerModel) -> bool {
        &&& p.x == self.x
        &&& (row_of(p.y) < self.gap_y - self.half_size() || row_of(p.y) > self.gap_y
            + self.half_size())
    }

    /// Gap size for the given score.
    pub fn size_for_score(score: i32) -> (r: i32)
        requires
            score >= 0,
        ensures
            r == gap_size(score as int),
    {
        if GAP_SIZE_START - score > GAP_SIZE_MIN {
            GAP_SIZE_START - score
        } else {
            GAP_SIZE_MIN
        }
    }

    /// An obstacle in column `x` with its gap centred on `gap_y`, sized for `score`.
    pub fn with_gap(x: i32, gap_y: i32, score: i32) -> (o: Obstacle)
        requires
            score >= 0,
        ensures
            o.x == x,
            o.gap_y == gap_y,
            o.size == gap_size(score as int),
            o.wf(),
    {
        Obstacle { x, gap_y, size: Self::size_for_score(score) }
    }

    /// An obstacle in column `x`, sized for `score`, with a gap center drawn from `rng`.
    pub fn new(x: i32, score: i32, rng: &mut RandomNumberGenerator) -> (o: Obstacle)
        requires
            score >= 0,
        ensures
            o.x == x,
            GAP_CENTER_MIN <= o.gap_y < GAP_CENTER_END,
            o.size == gap_size(score as int),
            o.wf(),
    {
        let gap_y = draw_in_range(rng, GAP_CENTER_MIN, GAP_CENTER_END);
        Self::with_gap(x, gap_y, score)
    }

    /// Whether the player hits this obstacle: same column, and a row outside
    /// `[gap_y - size / 2, gap_y + size / 2]`.
    pub fn hit_obstacle(&self, player: &Player) -> (r: bool)
        requires
            self.wf(),
            player.wf(),
        ensures
            r == self.collides(player@),
    {
        let half_size: i64 = (self.size / 2) as i64;
        let row: i64 = player.row() as i64;
        player.x == self.x && (row < self.gap_y as i64 - half_size || row > self.gap_y as i64
            + half_size)
    }

    /// The column the obstacle is drawn in, seen from a player in column `player_x`.
    pub fn screen_column(&self, player_x: i32) -> (c: i32)
        requires
            i32::MIN <= self.x - player_x <= i32::MAX,
        ensures
            c == self.x - player_x,
    {
        self.x - player_x
    }

    /// The rows the wall fills, as two half-open ranges: above the gap
    /// `[0, gap_y - size / 2)` and below it `[gap_y + size / 2, gap_y + size)`.
    pub fn wall_spans(&self) -> (r: ((i32, i32), (i32, i32)))
        requires
            self.wf(),
            i32::MIN + GAP_SIZE_START <= self.gap_y <= i32::MAX - GAP_SIZE_START,
        ensures
            r.0 == (0i32, (self.gap_y - self.half_size()) as i32),
            r.1 == ((self.gap_y + self.half_size()) as i32, (self.gap_y + self.size) as i32),
    {
        let half_size = self.size / 2;
        ((0, self.gap_y - half_size), (self.gap_y + half_size, self.gap_y + self.size))
    }
}

/// From a score of 18 on, the gap stays at its floor of 2.
pub proof fn lemma_gap_floor(score: int)
    requires
        score >= 18,
    ensures
        gap_size(score) == 2,
{
}

/// Below a score of 18, each point takes exactly one row off a gap of 20.
pub proof fn lemma_gap_shrinks_linearly(score: int)
    requires
        0 <= score < 18,
    ensures
        gap_size(score) == 20 - score,
{
}

/// A higher score never gives a larger gap.
pub proof fn lemma_gap_non_increasing(a: int, b: int)
    requires
        0 <= a <= b,
    ensures
        gap_size(b) <= gap_size(a),
{
}

} // verus!
