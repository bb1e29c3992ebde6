use vstd::prelude::*;

verus! {

/// Width of the board, in cells.
pub const SCREEN_WIDTH: i32 = 80;

/// Height of the board, in cells.
pub const SCREEN_HEIGHT: i32 = 50;

/// A simulation step fires once the clock has accumulated more than this many
/// milliseconds.
pub const FRAME_DURATION: u64 = 60;

/// Horizontal lane of the left paddle; the right paddle mirrors it at
/// `SCREEN_WIDTH - MARGIN`.
pub const MARGIN: i32 = 3;

/// Horizontal lane of the right paddle: MARGIN in from the right edge.
pub const RIGHT_LANE: i32 = 77;

/// Half-height of a paddle: it spans the band `[y - PADDLE_HEIGHT, y + PADDLE_HEIGHT]`.
pub const PADDLE_HEIGHT: i32 = 4;

/// Cells a paddle moves per tick while one of its keys is held.
pub const PADDLE_SPEED: i32 = 3;

/// Horizontal center of the board, where the ball rests between rounds.
pub const CENTER_X: i32 = 40;

/// Vertical center of the board: the resting row of the ball and of both paddles.
pub const CENTER_Y: i32 = 25;

} // verus!

mod rng;

pub mod ball;
pub mod clock;
pub mod game;
pub mod input;
pub mod paddle;
