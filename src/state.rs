use vstd::prelude::*;

use bracket_lib::prelude::RandomNumberGenerator;

use crate::obstacle::{gap_size, Obstacle, GAP_CENTER_END, GAP_CENTER_MIN};
use crate::player::{
    flapped, next_velocity, row_of, start_model, step, Player, PlayerModel, START_X, START_Y,
};
use crate::random::{fresh_generator, seeded_generator};
use crate::{FRAME_DURATION_US, SCREEN_HEIGHT, SCREEN_WIDTH};

verus! {

/// The three top-level modes of the game.
#[derive(Clone, Copy, Debug, PartialEq, Eq, Structural)]
pub enum GameMode {
    Menu,
    Playing,
    End,
}

/// The inputs the game reacts to: flap, start, quit. Other keys are never handed in.
#[derive(Clone, Copy, Debug, PartialEq, Eq, Structural)]
pub enum Key {
    Space,
    P,
    Q,
}

/// The whole game: one player, one obstacle, the score, the time gathered
/// towards the next physics step (microseconds), the mode, and the generator
/// that places new gaps.
pub struct State {
    pub player: Player,
    pub frame_time: u64,
    pub obstacle: Obstacle,
    pub mode: GameMode,
    pub score: i32,
    pub rng: RandomNumberGenerator,
}

/// The player after the physics part of a frame: a step when the gathered
/// time passes one physics step, then a flap on `Space`.
pub open spec fn moved_player(p: PlayerModel, frame_time: int, elapsed: int, key: Option<Key>) -> PlayerModel {
    let q = if frame_time + elapsed > FRAME_DURATION_US { step(p) } else { p };
    if key == Some(Key::Space) { flapped(q) } else { q }
}

/// The time gathered after a frame: reset when a step was taken.
pub open spec fn next_frame_time(frame_time: int, elapsed: int) -> int {
    if frame_time + elapsed > FRAME_DURATION_US { 0 } else { frame_time + elapsed }
}

/// The round has ended: the player fell below the screen or hit the obstacle.
pub open spec fn round_over(p: PlayerModel, o: Obstacle) -> bool {
    row_of(p.y) > SCREEN_HEIGHT || o.collides(p)
}

impl State {
    /// Player and obstacle are well formed and the score is not negative.
    pub open spec fn wf(&self) -> bool {
        &&& self.player.wf()
        &&& self.obstacle.wf()
        &&& self.score >= 0
    }

    /// What a new round starts from, with an obstacle at column `obstacle_x`.
    pub open spec fn is_round_start(&self, obstacle_x: int) -> bool {
        &&& self.player@ == start_model()
        &&& self.player.frame == 0
        &&& self.frame_time == 0
        &&& self.score == 0
        &&& self.obstacle.x == obstacle_x
        &&& self.obstacle.size == gap_size(0)
        &&& GAP_CENTER_MIN <= self.obstacle.gap_y < GAP_CENTER_END
    }

    /// The bounds a frame of play needs so that no counter overflows.
    pub open spec fn fits_frame(&self, elapsed: u64) -> bool {
        &&& self.frame_time + elapsed <= u64::MAX
        &&& self.player.x < i32::MAX - SCREEN_WIDTH
        &&& self.player.y + next_velocity(self.player.velocity as int) <= i32::MAX
        &&& self.score < i32::MAX
    }

    /// `post` is `pre` after a frame of play lasting `elapsed` with input `key`.
    /// Only the new obstacle's gap center is left open, within its range.
    pub open spec fn played(pre: State, post: State, elapsed: int, key: Option<Key>) -> bool {
        let p = moved_player(pre.player@, pre.frame_time as int, elapsed, key);
        let passed = p.x > pre.obstacle.x;
        &&& post.player@ == p
        &&& post.player.frame == pre.player.frame
        &&& post.frame_time == next_frame_time(pre.frame_time as int, elapsed)
        &&& post.score == if passed { pre.score + 1 } else { pre.score as int }
        &&& if passed {
            &&& post.obstacle.x == p.x + SCREEN_WIDTH
            &&& post.obstacle.size == gap_size(post.score as int)
            &&& GAP_CENTER_MIN <= post.obstacle.gap_y < GAP_CENTER_END
        } else {
            post.obstacle == pre.obstacle
        }
        &&& post.mode == if round_over(p, post.obstacle) { GameMode::End } else { pre.mode }
    }

    /// `post` is `pre` after a frame on a menu screen: `P` starts a round, `Q`
    /// asks to quit, anything else changes nothing.
    pub open spec fn on_menu(pre: State, post: State, key: Option<Key>, quit: bool) -> bool {
        &&& quit == (key == Some(Key::Q))
        &&& if key == Some(Key::P) {
            post.is_round_start(SCREEN_WIDTH as int) && post.mode == GameMode::Playing
        } else {
            post == pre
        }
    }

    fn with_generator(rng: RandomNumberGenerator) -> (s: State)
        ensures
            s.is_round_start(SCREEN_WIDTH + 10),
            s.mode == GameMode::Menu,
            s.wf(),
    {
        let mut rng = rng;
        let obstacle = Obstacle::new(SCREEN_WIDTH + 10, 0, &mut rng);
        State {
            player: Player::new(START_X, START_Y),
            frame_time: 0,
            obstacle,
            mode: GameMode::Menu,
            score: 0,
            rng,
        }
    }

    /// A game on its menu screen, drawing obstacles from a system-seeded generator.
    pub fn new() -> (s: State)
        ensures
            s.is_round_start(SCREEN_WIDTH + 10),
            s.mode == GameMode::Menu,
            s.wf(),
    {
        Self::with_generator(fresh_generator())
    }

    /// A game on its menu screen whose obstacles come from a generator seeded with `seed`.
    pub fn with_seed(seed: u64) -> (s: State)
        ensures
            s.is_round_start(SCREEN_WIDTH + 10),
            s.mode == GameMode::Menu,
            s.wf(),
    {
        Self::with_generator(seeded_generator(seed))
    }

    /// Starts a new round: fresh player, obstacle one screen ahead, score and
    /// timer at zero, mode `Playing`.
    pub fn restart(&mut self)
        ensures
            final(self).is_round_start(SCREEN_WIDTH as int),
            final(self).mode == GameMode::Playing,
            final(self).wf(),
    {
        self.player = Player::new(START_X, START_Y);
        self.frame_time = 0;
        self.obstacle = Obstacle::new(SCREEN_WIDTH, 0, &mut self.rng);
        self.mode = GameMode::Playing;
        self.score = 0;
    }

    /// One frame of play lasting `elapsed` microseconds, with input `key`.
    pub fn play(&mut self, elapsed: u64, key: Option<Key>)
        requires
            old(self).wf(),
            old(self).fits_frame(elapsed),
        ensures
            Self::played(*old(self), *final(self), elapsed as int, key),
            final(self).wf(),
    {
        self.frame_time = self.frame_time + elapsed;
        if self.frame_time > FRAME_DURATION_US {
            self.frame_time = 0;
            self.player.gravity_and_move();
        }
        if key == Some(Key::Space) {
            self.player.flap();
        }
        if self.player.x > self.obstacle.x {
            self.score = self.score + 1;
            self.obstacle = Obstacle::new(self.player.x + SCREEN_WIDTH, self.score, &mut self.rng);
        }
        if self.player.row() > SCREEN_HEIGHT || self.obstacle.hit_obstacle(&self.player) {
            self.mode = GameMode::End;
        }
    }

    /// One frame on the title screen.
    pub fn main_menu(&mut self, key: Option<Key>) -> (quit: bool)
        requires
            old(self).wf(),
        ensures
            Self::on_menu(*old(self), *final(self), key, quit),
            final(self).wf(),
    {
        self.menu_input(key)
    }

    /// One frame on the game-over screen.
    pub fn dead(&mut self, key: Option<Key>) -> (quit: bool)
        requires
            old(self).wf(),
        ensures
            Self::on_menu(*old(self), *final(self), key, quit),
            final(self).wf(),
    {
        self.menu_input(key)
    }

    fn menu_input(&mut self, key: Option<Key>) -> (quit: bool)
        requires
            old(self).wf(),
        ensures
            Self::on_menu(*old(self), *final(self), key, quit),
            final(self).wf(),
    {
        match key {
            Some(Key::P) => {
                self.restart();
                false
            },
            Some(Key::Q) => true,
            _ => false,
        }
    }

    /// One frame of the game: dispatches on the mode. Returns whether the
    /// player asked to quit.
    pub fn tick(&mut self, elapsed: u64, key: Option<Key>) -> (quit: bool)
        requires
            old(self).wf(),
            old(self).mode == GameMode::Playing ==> old(self).fits_frame(elapsed),
        ensures
            final(self).wf(),
            old(self).mode == GameMode::Playing ==> !quit && Self::played(
                *old(self),
                *final(self),
                elapsed as int,
                key,
            ),
            old(self).mode != GameMode::Playing ==> Self::on_menu(
                *old(self),
                *final(self),
                key,
                quit,
            ),
    {
        match self.mode {
            GameMode::Menu => self.main_menu(key),
            GameMode::Playing => {
                self.play(elapsed, key);
                false
            },
            GameMode::End => self.dead(key),
        }
    }
}

/// The only ways between modes: a frame of play ends in `Playing` or `End`,
/// and a menu screen either stays as it is or starts a round. In particular a
/// round never goes back to the title screen.
pub proof fn lemma_mode_transitions(pre: State, post: State, elapsed: int, key: Option<Key>, quit: bool)
    ensures
        pre.mode == GameMode::Playing && State::played(pre, post, elapsed, key) ==> post.mode
            != GameMode::Menu,
        State::on_menu(pre, post, key, quit) ==> post.mode == pre.mode || post.mode
            == GameMode::Playing,
        pre.mode == GameMode::End && State::on_menu(pre, post, key, quit) ==> post.mode
            != GameMode::Menu,
{
}

} // verus!
