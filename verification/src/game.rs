use vstd::prelude::*;
use bracket_lib::random::RandomNumberGenerator;
use crate::ball::Ball;
use crate::clock::GameClock;
use crate::input::InputSnapshot;
use crate::paddle::Controller;
use crate::paddle::Player;
use crate::CENTER_X;
use crate::CENTER_Y;
use crate::FRAME_DURATION;
use crate::MARGIN;
use crate::RIGHT_LANE;
use crate::SCREEN_HEIGHT;

verus! {

/// The round state: Menu before the first round, Paused between rounds,
/// Playing while the ball is live. Exactly one holds at a time.
#[derive(Clone, Copy, Debug, PartialEq, Eq, Structural)]
pub enum GameMode {
    Menu,
    Paused,
    Playing,
}

/// The whole simulation: the round state machine that owns the ball, both
/// paddles and the fixed-timestep clock, and advances them one tick at a time.
#[derive(Clone, Copy, Debug, PartialEq, Eq, Structural)]
pub struct Game {
    pub mode: GameMode,
    pub ball: Ball,
    pub clock: GameClock,
    /// The left paddle, on the lane at MARGIN.
    pub player1: Player,
    /// The right paddle, on the lane at SCREEN_WIDTH - MARGIN.
    pub player2: Player,
}

/// Everything the drawing shell needs for one frame: the ball's cell, both
/// paddles' lanes, centers and scores, and the round state (so the shell can
/// print its "press start" prompt). The core never draws.
#[derive(Clone, Copy, Debug, PartialEq, Eq, Structural)]
pub struct RenderSnapshot {
    pub ball_x: i32,
    pub ball_y: i32,
    pub player1_x: i32,
    pub player1_y: i32,
    pub player1_score: i32,
    pub player2_x: i32,
    pub player2_y: i32,
    pub player2_score: i32,
    pub mode: GameMode,
}

impl Game {
    /// The machine's invariant: the ball's velocity stays small and the clock
    /// never holds more than its threshold. Every tick preserves it.
    pub open spec fn wf(self) -> bool {
        &&& self.ball.vel_ok()
        &&& self.clock.wf()
    }

    /// Room for one more tick without leaving the machine's integers: every
    /// position is far from the i32 edge and both scores have headroom. The
    /// board never sends anything near these bounds in play; the caller
    /// re-checks them each tick because paddles and ball are never clamped.
    pub open spec fn step_safe(self) -> bool {
        &&& -1000000 <= self.ball.x <= 1000000
        &&& -1000000 <= self.ball.y <= 1000000
        &&& -1000000 <= self.player1.x <= 1000000
        &&& -1000000 <= self.player1.y <= 1000000
        &&& -1000000 <= self.player2.x <= 1000000
        &&& -1000000 <= self.player2.y <= 1000000
        &&& self.player1.score < i32::MAX
        &&& self.player2.score < i32::MAX
    }

    /// The renderable view of the current state.
    pub open spec fn spec_snapshot(self) -> RenderSnapshot {
        RenderSnapshot {
            ball_x: self.ball.x,
            ball_y: self.ball.y,
            player1_x: self.player1.x,
            player1_y: self.player1.y,
            player1_score: self.player1.score,
            player2_x: self.player2.x,
            player2_y: self.player2.y,
            player2_score: self.player2.score,
            mode: self.mode,
        }
    }

    /// A fresh game: menu state, ball resting at the center, scores at zero,
    /// the left paddle answering to player one's keys and the right paddle to
    /// player two's, and the clock set to the fixed frame duration.
    pub fn new() -> (game: Game)
        ensures
            game.mode == GameMode::Menu,
            game.ball == (Ball { x: CENTER_X, y: CENTER_Y, x_velocity: 0, y_velocity: 0 }),
            game.clock == (GameClock { accumulated: 0, threshold: FRAME_DURATION }),
            game.player1 == (Player {
                x: MARGIN,
                y: CENTER_Y,
                score: 0,
                controller: Controller::PlayerOne,
            }),
            game.player2 == (Player {
                x: RIGHT_LANE,
                y: CENTER_Y,
                score: 0,
                controller: Controller::PlayerTwo,
            }),
            game.wf(),
            game.step_safe(),
    {
        Game {
            mode: GameMode::Menu,
            ball: Ball::new(),
            clock: GameClock::new(FRAME_DURATION),
            player1: Player::new(MARGIN, Controller::PlayerOne),
            player2: Player::new(RIGHT_LANE, Controller::PlayerTwo),
        }
    }

    /// Runtime check of the machine's invariant, for callers outside the
    /// verified core: tick asks for wf and proves it back, so an unverified
    /// shell can test it once and rely on tick's own guarantee after that.
    pub fn is_well_formed(&self) -> (ok: bool)
        ensures
            ok == self.wf(),
    {
        -2 <= self.ball.x_velocity && self.ball.x_velocity <= 2 && -2 <= self.ball.y_velocity
            && self.ball.y_velocity <= 2 && self.clock.accumulated <= self.clock.threshold
    }

    /// Runtime check of the headroom that one tick needs, for callers outside
    /// the verified core. Positions are never clamped, so the shell tests
    /// this before every tick and stops rather than overflow.
    pub fn is_step_safe(&self) -> (ok: bool)
        ensures
            ok == self.step_safe(),
    {
        -1000000 <= self.ball.x && self.ball.x <= 1000000 && -1000000 <= self.ball.y && self.ball.y
            <= 1000000 && -1000000 <= self.player1.x && self.player1.x <= 1000000 && -1000000
            <= self.player1.y && self.player1.y <= 1000000 && -1000000 <= self.player2.x
            && self.player2.x <= 1000000 && -1000000 <= self.player2.y && self.player2.y <= 1000000
            && self.player1.score < i32::MAX && self.player2.score < i32::MAX
    }

    /// The renderable view of the current state, for the drawing shell.
    pub fn snapshot(&self) -> (snapshot: RenderSnapshot)
        ensures
            snapshot == self.spec_snapshot(),
    {
        RenderSnapshot {
            ball_x: self.ball.x,
            ball_y: self.ball.y,
            player1_x: self.player1.x,
            player1_y: self.player1.y,
            player1_score: self.player1.score,
            player2_x: self.player2.x,
            player2_y: self.player2.y,
            player2_score: self.player2.score,
            mode: self.mode,
        }
    }
}

/// Relation of one tick taken in the Menu state: both paddles and the ball
/// return to the vertical center, the clock, lanes, scores and controllers
/// are kept, and the start key alone decides whether the round begins — with
/// a fresh nonzero launch velocity — or the menu wait goes on with the ball
/// at rest.
pub open spec fn spec_menu_step(pre: Game, post: Game, start: bool) -> bool {
    &&& post.clock == pre.clock
    &&& post.player1 == (Player { y: CENTER_Y, ..pre.player1 })
    &&& post.player2 == (Player { y: CENTER_Y, ..pre.player2 })
    &&& post.ball.x == CENTER_X
    &&& post.ball.y == CENTER_Y
    &&& if start {
        post.mode == GameMode::Playing && post.ball.launch_velocity()
    } else {
        post.mode == pre.mode && post.ball == (Ball {
            x: CENTER_X,
            y: CENTER_Y,
            x_velocity: 0,
            y_velocity: 0,
        })
    }
}

/// Relation of one tick taken in the Paused state: everything is kept as it
/// is — positions were already reset when the pause began — except that the
/// start key alone may resume play, giving the ball a fresh nonzero launch
/// velocity in place.
pub open spec fn spec_paused_step(pre: Game, post: Game, start: bool) -> bool {
    &&& post.clock == pre.clock
    &&& post.player1 == pre.player1
    &&& post.player2 == pre.player2
    &&& post.ball.x == pre.ball.x
    &&& post.ball.y == pre.ball.y
    &&& if start {
        post.mode == GameMode::Playing && post.ball.launch_velocity()
    } else {
        post == pre
    }
}

impl Game {
    /// One tick taken in the Playing state, as a function of the old state:
    /// the clock accumulates and may fire one simulation step; a fired step
    /// moves the ball, then either scores — crediting the deltas, pausing the
    /// round and resetting all positions — or lets the paddles deflect it;
    /// and in every case both paddles then move by their players' keys.
    pub open spec fn spec_play(self, elapsed_ms: u64, input: InputSnapshot) -> Game {
        let fired = self.clock.spec_fires(elapsed_ms);
        let clock = GameClock {
            accumulated: if fired {
                0
            } else {
                (self.clock.accumulated + elapsed_ms) as u64
            },
            threshold: self.clock.threshold,
        };
        let stepped = if fired {
            let moved = self.ball.spec_moved();
            match moved.spec_scored() {
                Some(deltas) => Game {
                    mode: GameMode::Paused,
                    ball: Ball { x: CENTER_X, y: CENTER_Y, x_velocity: 0, y_velocity: 0 },
                    clock,
                    player1: Player {
                        y: CENTER_Y,
                        score: (self.player1.score + deltas.0) as i32,
                        ..self.player1
                    },
                    player2: Player {
                        y: CENTER_Y,
                        score: (self.player2.score + deltas.1) as i32,
                        ..self.player2
                    },
                },
                None => Game {
                    ball: moved.spec_after_paddles(self.player1, self.player2),
                    clock,
                    ..self
                },
            }
        } else {
            Game { clock, ..self }
        };
        Game {
            player1: Player {
                y: (stepped.player1.y + stepped.player1.controller.spec_delta(input)) as i32,
                ..stepped.player1
            },
            player2: Player {
                y: (stepped.player2.y + stepped.player2.controller.spec_delta(input)) as i32,
                ..stepped.player2
            },
            ..stepped
        }
    }

    /// The round state one tick later. It depends on the old state, the
    /// elapsed time and the start key, and on nothing else in the input: from
    /// Menu or Paused the start key is the only way into Playing, and a round
    /// leaves Playing exactly when a fired step scores.
    pub open spec fn spec_mode_after(self, elapsed_ms: u64, start: bool) -> GameMode {
        match self.mode {
            GameMode::Menu => if start {
                GameMode::Playing
            } else {
                GameMode::Menu
            },
            GameMode::Paused => if start {
                GameMode::Playing
            } else {
                GameMode::Paused
            },
            GameMode::Playing => if self.clock.spec_fires(elapsed_ms)
                && self.ball.spec_moved().spec_scored() is Some {
                GameMode::Paused
            } else {
                GameMode::Playing
            },
        }
    }

    /// Puts ball and paddles back at the vertical center and, if the start
    /// key is held, begins the round: Playing mode and a fresh launch
    /// velocity. Called every tick spent in the menu.
    pub fn reset_round(&mut self, rng: &mut RandomNumberGenerator, input: &InputSnapshot)
        ensures
            spec_menu_step(*old(self), *final(self), input.start),
            final(self).ball.vel_ok(),
            old(self).wf() ==> final(self).wf(),
    {
        self.ball.reset_position();
        self.player1.reset_position();
        self.player2.reset_position();
        if input.start {
            self.mode = GameMode::Playing;
            self.ball.start_move(rng);
        }
    }

    /// One tick in the Menu state: the shell prints its prompt; the core
    /// holds everything at the starting line until the start key is held.
    pub fn wait_start(&mut self, rng: &mut RandomNumberGenerator, input: &InputSnapshot)
        ensures
            spec_menu_step(*old(self), *final(self), input.start),
            final(self).ball.vel_ok(),
            old(self).wf() ==> final(self).wf(),
    {
        self.reset_round(rng, input);
    }

    /// One tick in the Paused state: everything stays put until the start key
    /// is held, which resumes play with a fresh launch velocity.
    pub fn paused(&mut self, rng: &mut RandomNumberGenerator, input: &InputSnapshot)
        ensures
            spec_paused_step(*old(self), *final(self), input.start),
            old(self).wf() ==> final(self).wf(),
    {
        if input.start {
            self.mode = GameMode::Playing;
            self.ball.start_move(rng);
        }
    }

    /// One tick in the Playing state: the clock gates the physics step, a
    /// scoring step credits the point and pauses the round with positions
    /// reset, and the paddles answer their keys every tick regardless.
    pub fn play(&mut self, elapsed_ms: u64, input: &InputSnapshot)
        requires
            old(self).wf(),
            old(self).step_safe(),
            elapsed_ms <= u64::MAX - old(self).clock.threshold,
        ensures
            *final(self) == old(self).spec_play(elapsed_ms, *input),
            final(self).wf(),
    {
        let fired = self.clock.advance(elapsed_ms);
        if fired {
            self.ball.move_and_bounce();
            let score = self.ball.bounce_and_score(&self.player1, &self.player2);
            if let Some((delta1, delta2)) = score {
                self.player1.score = self.player1.score + delta1;
                self.player2.score = self.player2.score + delta2;
                self.mode = GameMode::Paused;
                self.ball.reset_position();
                self.player1.reset_position();
                self.player2.reset_position();
            }
        }
        self.player1.move_player(input);
        self.player2.move_player(input);
    }

    /// The core's whole surface: one tick, fed the elapsed milliseconds and
    /// the input snapshot, dispatched on the round state; hands back the
    /// renderable state for the drawing shell.
    pub fn tick(&mut self, rng: &mut RandomNumberGenerator, elapsed_ms: u64, input: &InputSnapshot)
        -> (snapshot: RenderSnapshot)
        requires
            old(self).wf(),
            old(self).step_safe(),
            elapsed_ms <= u64::MAX - old(self).clock.threshold,
        ensures
            final(self).mode == old(self).spec_mode_after(elapsed_ms, input.start),
            old(self).mode == GameMode::Menu ==> spec_menu_step(
                *old(self),
                *final(self),
                input.start,
            ),
            old(self).mode == GameMode::Paused ==> spec_paused_step(
                *old(self),
                *final(self),
                input.start,
            ),
            old(self).mode == GameMode::Playing ==> *final(self) == old(self).spec_play(
                elapsed_ms,
                *input,
            ),
            final(self).wf(),
            snapshot == final(self).spec_snapshot(),
    {
        match self.mode {
            GameMode::Menu => self.wait_start(rng, input),
            GameMode::Paused => self.paused(rng, input),
            GameMode::Playing => self.play(elapsed_ms, input),
        }
        self.snapshot()
    }
}

/// Start-key law: from Menu or Paused, a tick moves the machine to Playing
/// exactly when the start key is held during that tick; with the start key up
/// the mode does not change. No other key is consulted: the mode one tick
/// later is a function of the old state, the elapsed time and the start key
/// alone.
pub proof fn lemma_start_key_gates_round(game: Game, elapsed_ms: u64, start: bool)
    requires
        game.mode == GameMode::Menu || game.mode == GameMode::Paused,
    ensures
        game.spec_mode_after(elapsed_ms, start) == GameMode::Playing <==> start,
        !start ==> game.spec_mode_after(elapsed_ms, start) == game.mode,
{
}

/// The rows of the board's dashed middle line, top to bottom: every second
/// row from the top edge through the board's height. The drawing shell paints
/// one cell per entry, at the board's horizontal center.
pub fn middle_line_cells() -> (cells: Vec<i32>)
    ensures
        cells@.len() == 26,
        forall|k: int| 0 <= k < cells@.len() ==> cells@[k] == 2 * k,
{
    let mut cells: Vec<i32> = Vec::new();
    let mut i: i32 = 0;
    while i <= SCREEN_HEIGHT
        invariant
            0 <= i <= SCREEN_HEIGHT + 2,
            i % 2 == 0,
            cells@.len() * 2 == i,
            forall|k: int| 0 <= k < cells@.len() ==> cells@[k] == 2 * k,
        decreases SCREEN_HEIGHT + 2 - i,
    {
        cells.push(i);
        i = i + 2;
    }
    cells
}

} // verus!
