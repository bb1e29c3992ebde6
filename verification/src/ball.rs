use vstd::prelude::*;
use bracket_lib::random::RandomNumberGenerator;
use crate::paddle::Player;
use crate::rng::rng_range;
use crate::CENTER_X;
use crate::CENTER_Y;
use crate::PADDLE_HEIGHT;
use crate::SCREEN_HEIGHT;
use crate::SCREEN_WIDTH;

verus! {

/// Integer division by two that truncates toward zero, as Rust's `/` does;
/// spec-level `/` rounds toward negative infinity instead.
pub open spec fn half_toward_zero(d: int) -> int {
    if d >= 0 {
        d / 2
    } else {
        -((-d) / 2)
    }
}

/// The ball: a position in board cells and a velocity in cells per
/// simulation step.
#[derive(Clone, Copy, Debug, PartialEq, Eq, Structural)]
pub struct Ball {
    pub x: i32,
    pub y: i32,
    pub x_velocity: i32,
    pub y_velocity: i32,
}

impl Ball {
    /// Both velocity components stay small: start_move hands out magnitudes
    /// of at most two, and a paddle deflection keeps them there.
    pub open spec fn vel_ok(self) -> bool {
        &&& -2 <= self.x_velocity <= 2
        &&& -2 <= self.y_velocity <= 2
    }

    /// A velocity as start_move draws it: horizontal magnitude two, vertical
    /// magnitude one, either sign — never purely horizontal or vertical.
    pub open spec fn launch_velocity(self) -> bool {
        &&& (self.x_velocity == 2 || self.x_velocity == -2)
        &&& (self.y_velocity == 1 || self.y_velocity == -1)
    }

    /// The ball one simulation step later: the velocity carries the position,
    /// and a position that left the board vertically reflects the vertical
    /// velocity. The out-of-range row itself is kept for this step; only the
    /// velocity turns around.
    pub open spec fn spec_moved(self) -> Ball {
        let nx = self.x + self.x_velocity;
        let ny = self.y + self.y_velocity;
        Ball {
            x: nx as i32,
            y: ny as i32,
            x_velocity: self.x_velocity,
            y_velocity: if ny < 0 || ny > SCREEN_HEIGHT - 1 {
                (-self.y_velocity) as i32
            } else {
                self.y_velocity
            },
        }
    }

    /// Whether the ball sits in a paddle's reach: within one column of the
    /// paddle's lane and within the paddle's vertical band.
    pub open spec fn hits_paddle(self, paddle: Player) -> bool {
        &&& paddle.x - 1 <= self.x <= paddle.x + 1
        &&& paddle.y - PADDLE_HEIGHT <= self.y <= paddle.y + PADDLE_HEIGHT
    }

    /// The ball after one paddle contact: the horizontal velocity reverses,
    /// and the vertical velocity is steered by the contact offset — half the
    /// distance from the paddle's center, truncated toward zero.
    pub open spec fn spec_deflected(self, paddle: Player) -> Ball {
        Ball {
            x_velocity: (-self.x_velocity) as i32,
            y_velocity: half_toward_zero(self.y - paddle.y) as i32,
            ..self
        }
    }

    /// The score a ball's column yields: reaching the left edge awards the
    /// right player, reaching the right edge awards the left player, and no
    /// other position scores. The left check comes first.
    pub open spec fn spec_scored(self) -> Option<(i32, i32)> {
        if self.x <= 0 {
            Some((0i32, 1i32))
        } else if self.x >= SCREEN_WIDTH - 1 {
            Some((1i32, 0i32))
        } else {
            None
        }
    }

    /// The ball after both paddles are checked in order, each deflecting it
    /// when it sits in their reach. The position never changes here.
    pub open spec fn spec_after_paddles(self, player1: Player, player2: Player) -> Ball {
        let after_first = if self.hits_paddle(player1) {
            self.spec_deflected(player1)
        } else {
            self
        };
        if after_first.hits_paddle(player2) {
            after_first.spec_deflected(player2)
        } else {
            after_first
        }
    }

    /// A ball at the board's center, at rest.
    pub fn new() -> (ball: Ball)
        ensures
            ball == (Ball { x: CENTER_X, y: CENTER_Y, x_velocity: 0, y_velocity: 0 }),
            ball.vel_ok(),
    {
        Ball { x: CENTER_X, y: CENTER_Y, x_velocity: 0, y_velocity: 0 }
    }

    /// Puts the ball back at the board's center with no motion; called on
    /// every round reset.
    pub fn reset_position(&mut self)
        ensures
            *final(self) == (Ball { x: CENTER_X, y: CENTER_Y, x_velocity: 0, y_velocity: 0 }),
            final(self).vel_ok(),
    {
        self.x = CENTER_X;
        self.y = CENTER_Y;
        self.x_velocity = 0;
        self.y_velocity = 0;
    }

    /// Draws a fresh trajectory from the injected entropy source: horizontal
    /// velocity of magnitude two, vertical of magnitude one, each sign chosen
    /// by the source, zero rejected by resampling. The position stays put.
    /// Neither component is ever zero, so the ball is never sent purely
    /// vertically or purely horizontally. A pathological source that keeps
    /// answering zero is cut off after a fixed number of attempts and the
    /// positive sign is taken, so the resampling always terminates.
    pub fn start_move(&mut self, rng: &mut RandomNumberGenerator)
        ensures
            final(self).x == old(self).x,
            final(self).y == old(self).y,
            final(self).launch_velocity(),
            final(self).vel_ok(),
    {
        let vx = sample_sign(rng);
        self.x_velocity = vx * 2;
        self.y_velocity = sample_sign(rng);
    }

    /// One simulation step: the velocity carries the position, and if the new
    /// row lies outside the board the vertical velocity reflects. The
    /// out-of-range row is kept for this frame, not clamped; the horizontal
    /// axis never bounces here — leaving it is scoring's business.
    pub fn move_and_bounce(&mut self)
        requires
            i32::MIN <= old(self).x + old(self).x_velocity <= i32::MAX,
            i32::MIN <= old(self).y + old(self).y_velocity <= i32::MAX,
            i32::MIN < old(self).y_velocity,
        ensures
            *final(self) == old(self).spec_moved(),
            final(self).y < 0 || final(self).y > SCREEN_HEIGHT - 1 ==> final(self).y_velocity
                == -old(self).y_velocity,
            0 <= final(self).y <= SCREEN_HEIGHT - 1 ==> final(self).y_velocity == old(
                self,
            ).y_velocity,
            old(self).vel_ok() ==> final(self).vel_ok(),
    {
        self.x = self.x + self.x_velocity;
        self.y = self.y + self.y_velocity;
        if self.y < 0 || self.y > SCREEN_HEIGHT - 1 {
            self.y_velocity = -self.y_velocity;
        }
    }

    /// Scoring and paddle contact, in that priority order. A ball at or past
    /// the left edge awards the right player one point; at or past the right
    /// edge, the left player — in either case the ball itself is untouched
    /// and the paddles are not consulted. Otherwise each paddle in turn
    /// deflects the ball if it sits in that paddle's reach, and no score is
    /// reported.
    pub fn bounce_and_score(&mut self, player1: &Player, player2: &Player) -> (score: Option<
        (i32, i32),
    >)
        requires
            i32::MIN < old(self).x_velocity,
            i32::MIN < player1.x < i32::MAX,
            i32::MIN < player2.x < i32::MAX,
            i32::MIN + PADDLE_HEIGHT <= player1.y <= i32::MAX - PADDLE_HEIGHT,
            i32::MIN + PADDLE_HEIGHT <= player2.y <= i32::MAX - PADDLE_HEIGHT,
        ensures
            score == old(self).spec_scored(),
            old(self).spec_scored() is Some ==> *final(self) == *old(self),
            old(self).spec_scored() is None ==> *final(self) == old(self).spec_after_paddles(
                *player1,
                *player2,
            ),
            final(self).x == old(self).x,
            final(self).y == old(self).y,
            old(self).vel_ok() ==> final(self).vel_ok(),
    {
        if self.x <= 0 {
            return Some((0, 1));
        } else if self.x >= SCREEN_WIDTH - 1 {
            return Some((1, 0));
        }
        self.deflect_off(player1);
        self.deflect_off(player2);
        None
    }

    /// One paddle's contact check: deflects the ball when it sits in the
    /// paddle's reach, and leaves it alone otherwise.
    fn deflect_off(&mut self, paddle: &Player)
        requires
            i32::MIN < old(self).x_velocity,
            i32::MIN < paddle.x < i32::MAX,
            i32::MIN + PADDLE_HEIGHT <= paddle.y <= i32::MAX - PADDLE_HEIGHT,
        ensures
            *final(self) == if old(self).hits_paddle(*paddle) {
                old(self).spec_deflected(*paddle)
            } else {
                *old(self)
            },
    {
        if paddle.x - 1 <= self.x && self.x <= paddle.x + 1 {
            if self.y >= paddle.y - PADDLE_HEIGHT && self.y <= paddle.y + PADDLE_HEIGHT {
                self.x_velocity = -self.x_velocity;
                let offset = self.y - paddle.y;
                self.y_velocity = if offset >= 0 {
                    offset / 2
                } else {
                    -((-offset) / 2)
                };
            }
        }
    }
}

/// Draws from {-1, 1}, resampling zeros: one uniform draw over {-1, 0, 1}
/// per attempt, the first nonzero value taken. A source that keeps answering
/// zero is cut off after a fixed number of attempts in favor of 1, which
/// bounds the resampling loop.
fn sample_sign(rng: &mut RandomNumberGenerator) -> (sign: i32)
    ensures
        sign == 1 || sign == -1,
{
    let mut drawn: i32 = 0;
    let mut attempts: u32 = 0;
    while drawn == 0 && attempts < 100
        invariant
            -1 <= drawn <= 1,
            attempts <= 100,
        decreases 100 - attempts,
    {
        drawn = rng_range(rng, -1, 2);
        attempts = attempts + 1;
    }
    if drawn == 0 {
        1
    } else {
        drawn
    }
}

/// Scoring law: a ball at or past the left edge always awards the right
/// player one point, a ball at or past the right edge always awards the left
/// player one point, and no other column ever scores.
pub proof fn lemma_score_edges(ball: Ball)
    ensures
        ball.x <= 0 ==> ball.spec_scored() == Some((0i32, 1i32)),
        ball.x >= SCREEN_WIDTH - 1 && ball.x > 0 ==> ball.spec_scored() == Some((1i32, 0i32)),
        0 < ball.x < SCREEN_WIDTH - 1 ==> ball.spec_scored() is None,
{
}

/// Paddle deflection law: a ball in exactly one paddle's column and band
/// leaves with its horizontal velocity sign flipped and its vertical velocity
/// set to half its offset from that paddle's center, truncated toward zero.
/// The position does not move.
pub proof fn lemma_paddle_deflection(ball: Ball, player1: Player, player2: Player)
    requires
        i32::MIN < ball.x_velocity,
    ensures
        ball.hits_paddle(player1) && !ball.hits_paddle(player2) ==> ball.spec_after_paddles(
            player1,
            player2,
        ) == (Ball {
            x_velocity: (-ball.x_velocity) as i32,
            y_velocity: half_toward_zero(ball.y - player1.y) as i32,
            ..ball
        }),
        ball.hits_paddle(player2) && !ball.hits_paddle(player1) ==> ball.spec_after_paddles(
            player1,
            player2,
        ) == (Ball {
            x_velocity: (-ball.x_velocity) as i32,
            y_velocity: half_toward_zero(ball.y - player2.y) as i32,
            ..ball
        }),
{
}

} // verus!
