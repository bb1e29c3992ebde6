use vstd::prelude::*;
use crate::input::InputSnapshot;
use crate::CENTER_Y;
use crate::PADDLE_HEIGHT;
use crate::PADDLE_SPEED;

verus! {

/// Which pair of logical keys a paddle answers to. This is the whole
/// difference between the two paddles' controls: one method, two instances.
#[derive(Clone, Copy, Debug, PartialEq, Eq, Structural)]
pub enum Controller {
    PlayerOne,
    PlayerTwo,
}

/// Vertical delta for player one this tick: the "up" key wins when both of
/// that player's keys are held.
pub open spec fn spec_move_delta_1(input: InputSnapshot) -> int {
    if input.player1_up {
        -PADDLE_SPEED as int
    } else if input.player1_down {
        PADDLE_SPEED as int
    } else {
        0
    }
}

/// Vertical delta for player two this tick: the "up" key wins when both of
/// that player's keys are held.
pub open spec fn spec_move_delta_2(input: InputSnapshot) -> int {
    if input.player2_up {
        -PADDLE_SPEED as int
    } else if input.player2_down {
        PADDLE_SPEED as int
    } else {
        0
    }
}

impl Controller {
    /// The vertical delta this controller reads out of an input snapshot.
    pub open spec fn spec_delta(self, input: InputSnapshot) -> int {
        match self {
            Controller::PlayerOne => spec_move_delta_1(input),
            Controller::PlayerTwo => spec_move_delta_2(input),
        }
    }
}

/// Maps player one's keys to a vertical move: up before down when both are held.
pub fn move_player_1(input: &InputSnapshot) -> (delta: i32)
    ensures
        delta == spec_move_delta_1(*input),
{
    if input.player1_up {
        -PADDLE_SPEED
    } else if input.player1_down {
        PADDLE_SPEED
    } else {
        0
    }
}

/// Maps player two's keys to a vertical move: up before down when both are held.
pub fn move_player_2(input: &InputSnapshot) -> (delta: i32)
    ensures
        delta == spec_move_delta_2(*input),
{
    if input.player2_up {
        -PADDLE_SPEED
    } else if input.player2_down {
        PADDLE_SPEED
    } else {
        0
    }
}

/// One paddle: a fixed horizontal lane, a mutable vertical center, the
/// player's score, and the controller that maps input keys to movement.
#[derive(Clone, Copy, Debug, PartialEq, Eq, Structural)]
pub struct Player {
    /// The paddle's lane: set at construction, never mutated afterwards.
    pub x: i32,
    /// Vertical center of the paddle. Never clamped: a paddle may leave the board.
    pub y: i32,
    /// This player's score; it only ever grows.
    pub score: i32,
    /// Which keys move this paddle.
    pub controller: Controller,
}

impl Player {
    pub fn new(x: i32, controller: Controller) -> (player: Player)
        ensures
            player.x == x,
            player.y == CENTER_Y,
            player.score == 0,
            player.controller == controller,
    {
        Player { x, y: CENTER_Y, score: 0, controller }
    }

    /// Puts the paddle back at the board's vertical center; lane, score and
    /// controller stay as they are.
    pub fn reset_position(&mut self)
        ensures
            *final(self) == (Player { y: CENTER_Y, ..*old(self) }),
    {
        self.y = CENTER_Y;
    }

    /// Moves the paddle by the delta its controller reads from the input:
    /// up by PADDLE_SPEED, down by PADDLE_SPEED, or not at all, with the "up"
    /// key winning when both keys are held. Runs every tick, gated by nothing.
    pub fn move_player(&mut self, input: &InputSnapshot)
        requires
            i32::MIN + PADDLE_SPEED <= old(self).y <= i32::MAX - PADDLE_SPEED,
        ensures
            *final(self) == (Player {
                y: (old(self).y + old(self).controller.spec_delta(*input)) as i32,
                ..*old(self)
            }),
    {
        let delta = match self.controller {
            Controller::PlayerOne => move_player_1(input),
            Controller::PlayerTwo => move_player_2(input),
        };
        self.y = self.y + delta;
    }

    /// The rows the paddle covers, top to bottom: the contiguous band of
    /// half-height PADDLE_HEIGHT around its center. The drawing shell paints
    /// one cell per entry, at the paddle's lane.
    pub fn band_cells(&self) -> (cells: Vec<i32>)
        requires
            i32::MIN + PADDLE_HEIGHT <= self.y <= i32::MAX - PADDLE_HEIGHT,
        ensures
            cells@.len() == 2 * PADDLE_HEIGHT + 1,
            forall|k: int| 0 <= k < cells@.len() ==> cells@[k] == self.y - PADDLE_HEIGHT + k,
    {
        let mut cells: Vec<i32> = Vec::new();
        let mut i: i32 = -PADDLE_HEIGHT;
        while i <= PADDLE_HEIGHT
            invariant
                i32::MIN + PADDLE_HEIGHT <= self.y <= i32::MAX - PADDLE_HEIGHT,
                -PADDLE_HEIGHT <= i <= PADDLE_HEIGHT + 1,
                cells@.len() == i + PADDLE_HEIGHT,
                forall|k: int| 0 <= k < cells@.len() ==> cells@[k] == self.y - PADDLE_HEIGHT + k,
            decreases PADDLE_HEIGHT + 1 - i,
        {
            cells.push(self.y + i);
            i = i + 1;
        }
        cells
    }
}

} // verus!
