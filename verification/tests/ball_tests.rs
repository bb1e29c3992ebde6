use bracket_lib::random::RandomNumberGenerator;
use pong_core::ball::Ball;
use pong_core::paddle::Controller;
use pong_core::paddle::Player;

fn left_paddle(y: i32) -> Player {
    Player {
        x: 3,
        y,
        score: 0,
        controller: Controller::PlayerOne,
    }
}

fn right_paddle(y: i32) -> Player {
    Player {
        x: 77,
        y,
        score: 0,
        controller: Controller::PlayerTwo,
    }
}

#[test]
fn start_move_always_nonzero() {
    for seed in 0..200u64 {
        let mut rng = RandomNumberGenerator::seeded(seed);
        let mut ball = Ball::new();
        ball.start_move(&mut rng);
        assert!(ball.x_velocity == 2 || ball.x_velocity == -2);
        assert!(ball.y_velocity == 1 || ball.y_velocity == -1);
        assert_eq!(ball.x, 40);
        assert_eq!(ball.y, 25);
    }
}

#[test]
fn start_move_draws_both_signs() {
    let mut saw = (false, false, false, false);
    for seed in 0..200u64 {
        let mut rng = RandomNumberGenerator::seeded(seed);
        let mut ball = Ball::new();
        ball.start_move(&mut rng);
        match ball.x_velocity {
            2 => saw.0 = true,
            -2 => saw.1 = true,
            _ => panic!("horizontal velocity out of range"),
        }
        match ball.y_velocity {
            1 => saw.2 = true,
            -1 => saw.3 = true,
            _ => panic!("vertical velocity out of range"),
        }
    }
    assert!(saw.0 && saw.1 && saw.2 && saw.3);
}

#[test]
fn move_and_bounce_advances_by_velocity() {
    let mut ball = Ball {
        x: 10,
        y: 20,
        x_velocity: 2,
        y_velocity: 1,
    };
    ball.move_and_bounce();
    assert_eq!((ball.x, ball.y), (12, 21));
    assert_eq!((ball.x_velocity, ball.y_velocity), (2, 1));
}

#[test]
fn move_and_bounce_reflects_at_top() {
    let mut ball = Ball {
        x: 10,
        y: 0,
        x_velocity: 0,
        y_velocity: -1,
    };
    ball.move_and_bounce();
    // the out-of-range row is kept for this frame; only the velocity flips
    assert_eq!(ball.y, -1);
    assert_eq!(ball.y_velocity, 1);
}

#[test]
fn move_and_bounce_reflects_at_bottom() {
    let mut ball = Ball {
        x: 10,
        y: 49,
        x_velocity: 2,
        y_velocity: 1,
    };
    ball.move_and_bounce();
    assert_eq!(ball.y, 50);
    assert_eq!(ball.y_velocity, -1);
    assert_eq!(ball.x, 12);
}

#[test]
fn move_and_bounce_keeps_velocity_inside_board() {
    let mut ball = Ball {
        x: 10,
        y: 48,
        x_velocity: 0,
        y_velocity: 1,
    };
    ball.move_and_bounce();
    assert_eq!(ball.y, 49);
    assert_eq!(ball.y_velocity, 1);
}

#[test]
fn move_and_bounce_never_reflects_horizontally() {
    let mut ball = Ball {
        x: 1,
        y: 20,
        x_velocity: -2,
        y_velocity: 0,
    };
    ball.move_and_bounce();
    assert_eq!(ball.x, -1);
    assert_eq!(ball.x_velocity, -2);
}

#[test]
fn paddle_contact_reverses_and_steers() {
    // board 80x50, half-height 4: ball (4,25) at velocity (-2,1) against a
    // paddle at (3,25) leaves at velocity (2,0) with no score
    let mut ball = Ball {
        x: 4,
        y: 25,
        x_velocity: -2,
        y_velocity: 1,
    };
    let score = ball.bounce_and_score(&left_paddle(25), &right_paddle(25));
    assert_eq!(score, None);
    assert_eq!((ball.x_velocity, ball.y_velocity), (2, 0));
    assert_eq!((ball.x, ball.y), (4, 25));
}

#[test]
fn paddle_contact_steers_by_offset() {
    let mut ball = Ball {
        x: 2,
        y: 28,
        x_velocity: -1,
        y_velocity: -1,
    };
    let score = ball.bounce_and_score(&left_paddle(25), &right_paddle(25));
    assert_eq!(score, None);
    // offset +3 halves to +1
    assert_eq!((ball.x_velocity, ball.y_velocity), (1, 1));
}

#[test]
fn paddle_contact_truncates_toward_zero() {
    let mut ball = Ball {
        x: 76,
        y: 22,
        x_velocity: 2,
        y_velocity: 1,
    };
    let score = ball.bounce_and_score(&left_paddle(25), &right_paddle(25));
    assert_eq!(score, None);
    // offset -3 halves to -1, not -2
    assert_eq!((ball.x_velocity, ball.y_velocity), (-2, -1));
}

#[test]
fn paddle_band_edges_deflect() {
    // y exactly at the band's edge still counts: offset +4 halves to +2
    let mut ball = Ball {
        x: 3,
        y: 29,
        x_velocity: -2,
        y_velocity: 0,
    };
    let score = ball.bounce_and_score(&left_paddle(25), &right_paddle(25));
    assert_eq!(score, None);
    assert_eq!((ball.x_velocity, ball.y_velocity), (2, 2));
}

#[test]
fn outside_band_does_not_deflect() {
    let mut ball = Ball {
        x: 3,
        y: 30,
        x_velocity: -2,
        y_velocity: 0,
    };
    let score = ball.bounce_and_score(&left_paddle(25), &right_paddle(25));
    assert_eq!(score, None);
    assert_eq!((ball.x_velocity, ball.y_velocity), (-2, 0));
}

#[test]
fn left_edge_scores_for_player_two() {
    // ball at (0,10), any velocity: always Some((0,1)), whatever the paddles do
    for (vx, vy) in [(-2, 1), (2, -1), (0, 0), (1, 2)] {
        for paddle_y in [-40, 10, 500] {
            let mut ball = Ball {
                x: 0,
                y: 10,
                x_velocity: vx,
                y_velocity: vy,
            };
            let score = ball.bounce_and_score(&left_paddle(paddle_y), &right_paddle(paddle_y));
            assert_eq!(score, Some((0, 1)));
            // the ball itself is untouched by a scoring call
            assert_eq!((ball.x, ball.y), (0, 10));
            assert_eq!((ball.x_velocity, ball.y_velocity), (vx, vy));
        }
    }
}

#[test]
fn right_edge_scores_for_player_one() {
    for x in [79, 80, 81] {
        let mut ball = Ball {
            x,
            y: 10,
            x_velocity: 2,
            y_velocity: 1,
        };
        let score = ball.bounce_and_score(&left_paddle(25), &right_paddle(25));
        assert_eq!(score, Some((1, 0)));
    }
}

#[test]
fn scoring_outranks_paddle_contact() {
    // a paddle whose reach covers the edge column does not stop the score
    let paddle_on_edge = Player {
        x: 1,
        y: 10,
        score: 0,
        controller: Controller::PlayerOne,
    };
    let mut ball = Ball {
        x: 0,
        y: 10,
        x_velocity: -2,
        y_velocity: 0,
    };
    let score = ball.bounce_and_score(&paddle_on_edge, &right_paddle(25));
    assert_eq!(score, Some((0, 1)));
    assert_eq!(ball.x_velocity, -2);
}

#[test]
fn no_other_column_scores() {
    for x in 1..79 {
        let mut ball = Ball {
            x,
            y: 10,
            x_velocity: 1,
            y_velocity: 1,
        };
        // paddles far away: nothing to hit, nothing to score
        let score = ball.bounce_and_score(&left_paddle(500), &right_paddle(500));
        assert_eq!(score, None);
    }
}

#[test]
fn reset_position_centers_and_stops() {
    let mut ball = Ball {
        x: 7,
        y: 3,
        x_velocity: -2,
        y_velocity: 1,
    };
    ball.reset_position();
    assert_eq!((ball.x, ball.y), (40, 25));
    assert_eq!((ball.x_velocity, ball.y_velocity), (0, 0));
}

#[test]
fn new_ball_rests_at_center() {
    let ball = Ball::new();
    assert_eq!((ball.x, ball.y), (40, 25));
    assert_eq!((ball.x_velocity, ball.y_velocity), (0, 0));
}
