use vstd::prelude::*;

use crate::SUBCELLS;

verus! {

/// Velocity gained per physics step, in tenths of a cell per step.
pub const GRAVITY: i32 = 2;

/// Gravity stops adding velocity once this speed is reached.
pub const TERMINAL_VELOCITY: i32 = 20;

/// Velocity set by a flap (upward is negative).
pub const FLAP_VELOCITY: i32 = -20;

/// Column and row at which every round starts.
pub const START_X: i32 = 5;

pub const START_Y: i32 = 25;

/// The player. `y` and `velocity` are in tenths of a cell; `x` counts the
/// columns travelled; `frame` picks the sprite and has no effect on play.
#[derive(Clone, Copy, Debug)]
pub struct Player {
    pub x: i32,
    pub y: i32,
    pub velocity: i32,
    pub frame: usize,
}

/// The mathematical state of a player: what physics and collision read.
pub struct PlayerModel {
    pub x: int,
    pub y: int,
    pub velocity: int,
}

impl View for Player {
    type V = PlayerModel;

    open spec fn view(&self) -> PlayerModel {
        PlayerModel { x: self.x as int, y: self.y as int, velocity: self.velocity as int }
    }
}

/// Velocity after one step of gravity: `GRAVITY` more, but never past the
/// terminal velocity; a velocity already at or above it is left alone.
pub open spec fn next_velocity(v: int) -> int {
    if v < TERMINAL_VELOCITY {
        if v + GRAVITY < TERMINAL_VELOCITY {
            v + GRAVITY
        } else {
            TERMINAL_VELOCITY as int
        }
    } else {
        v
    }
}

/// A vertical position pushed back to the top edge when above it.
pub open spec fn clamp_top(y: int) -> int {
    if y < 0 {
        0
    } else {
        y
    }
}

/// One physics step: gravity, vertical move, one column forward, clamp at the top.
pub open spec fn step(m: PlayerModel) -> PlayerModel {
    let v = next_velocity(m.velocity);
    PlayerModel { x: m.x + 1, y: clamp_top(m.y + v), velocity: v }
}

/// `n` physics steps in a row.
pub open spec fn steps(m: PlayerModel, n: nat) -> PlayerModel
    decreases n,
{
    if n == 0 {
        m
    } else {
        step(steps(m, (n - 1) as nat))
    }
}

/// The state after a flap: only the velocity changes.
pub open spec fn flapped(m: PlayerModel) -> PlayerModel {
    PlayerModel { velocity: FLAP_VELOCITY as int, ..m }
}

/// The model of a player at the start of a round.
pub open spec fn start_model() -> PlayerModel {
    PlayerModel { x: START_X as int, y: START_Y * SUBCELLS, velocity: 0 }
}

/// The row (whole cell) that a fixed-point vertical position lies in.
pub open spec fn row_of(y: int) -> int {
    y / SUBCELLS as int
}

impl Player {
    /// The player never stands above the top edge.
    pub open spec fn wf(&self) -> bool {
        self.y >= 0
    }

    /// A player standing still at column `x` and row `y`.
    pub fn new(x: i32, y: i32) -> (p: Player)
        requires
            0 <= y,
            y * SUBCELLS <= i32::MAX,
        ensures
            p@ == (PlayerModel { x: x as int, y: y * SUBCELLS, velocity: 0 }),
            p.frame == 0,
            p.wf(),
    {
        Player { x, y: y * SUBCELLS, velocity: 0, frame: 0 }
    }

    /// Advances the player by one physics step.
    pub fn gravity_and_move(&mut self)
        requires
            old(self).x < i32::MAX,
            old(self).y + next_velocity(old(self).velocity as int) <= i32::MAX,
            old(self).y + next_velocity(old(self).velocity as int) >= i32::MIN,
        ensures
            final(self)@ == step(old(self)@),
            final(self).frame == old(self).frame,
            final(self).wf(),
    {
        if self.velocity < TERMINAL_VELOCITY {
            if self.velocity > TERMINAL_VELOCITY - GRAVITY {
                self.velocity = TERMINAL_VELOCITY;
            } else {
                self.velocity = self.velocity + GRAVITY;
            }
        }
        self.y = self.y + self.velocity;
        self.x = self.x + 1;
        if self.y < 0 {
            self.y = 0;
        }
    }

    /// Sets the velocity to the flap velocity, whatever it was.
    pub fn flap(&mut self)
        ensures
            final(self)@ == flapped(old(self)@),
            final(self).frame == old(self).frame,
    {
        self.velocity = FLAP_VELOCITY;
    }

    /// The row the player occupies.
    pub fn row(&self) -> (r: i32)
        requires
            self.wf(),
        ensures
            r == row_of(self.y as int),
    {
        self.y / SUBCELLS
    }

    /// The glyph of the current animation frame, from a six-entry cycle.
    pub fn glyph(&self) -> (g: u16)
        ensures
            g == sprite_glyph((self.frame % 6) as int),
    {
        let cycle: [u16; 6] = [64, 1, 2, 3, 2, 1];
        proof {
            assert(cycle@ == sprite_cycle());
        }
        cycle[self.frame % 6]
    }
}

/// The glyphs of the animation cycle.
pub open spec fn sprite_cycle() -> Seq<u16> {
    seq![64u16, 1, 2, 3, 2, 1]
}

/// The glyph at position `i` of the animation cycle.
pub open spec fn sprite_glyph(i: int) -> u16 {
    sprite_cycle()[i]
}

/// After at least one physics step the player is never above the top edge,
/// whatever the velocity it started with.
pub proof fn lemma_steps_never_above_top(m: PlayerModel, n: nat)
    requires
        n > 0 || m.y >= 0,
    ensures
        steps(m, n).y >= 0,
    decreases n,
{
}

/// A flap sets the velocity to the flap velocity whatever it was before, and a
/// second flap changes nothing more.
pub proof fn lemma_flap_overrides(m: PlayerModel)
    ensures
        flapped(m).velocity == FLAP_VELOCITY,
        flapped(flapped(m)) == flapped(m),
{
}

/// Under gravity alone, a velocity at most the terminal one grows by `GRAVITY`
/// per step until it reaches the terminal velocity, and then stays there.
pub proof fn lemma_gravity_caps_velocity(m: PlayerModel, n: nat)
    requires
        m.velocity <= TERMINAL_VELOCITY,
    ensures
        steps(m, n).velocity == if m.velocity + GRAVITY * n <= TERMINAL_VELOCITY {
            m.velocity + GRAVITY * n
        } else {
            TERMINAL_VELOCITY as int
        },
        steps(m, n).velocity <= TERMINAL_VELOCITY,
    decreases n,
{
    if n > 0 {
        lemma_gravity_caps_velocity(m, (n - 1) as nat);
    }
}

} // verus!
