// Crossing classifier and paddle behavior, on the half-unit grid: the court
// is 800 x 600 pixels and the ball moves 2.5 pixels per tick, so one grid
// unit is half a pixel (court 1600 x 1200, speed 5).

use pong::ball::{cross, Crossing};
use pong::config::GameConfig;
use pong::paddle::{Paddle, PaddleCommand, Side};

fn half_unit_config() -> GameConfig {
    GameConfig {
        court_width: 1600,
        court_height: 1200,
        paddle_width: 10,
        paddle_height: 100,
        paddle_step: 20,
        ball_radius: 10,
        ball_speed: 5,
    }
}

#[test]
fn wall_bounce_reflects_vertical_only() {
    let cfg = half_unit_config();
    // ball on the low wall (y == ball_radius) moving into it
    let r = cross(400, 10, 5, -5, 550, 550, &cfg);
    assert_eq!(r, Crossing::Bounce { dx: 5, dy: 5 });
    // ball on the high wall moving into it, horizontal component untouched
    let r = cross(400, 1190, -5, 5, 550, 550, &cfg);
    assert_eq!(r, Crossing::Bounce { dx: -5, dy: -5 });
}

#[test]
fn paddle_bounce_reflects_horizontal_only() {
    let cfg = half_unit_config();
    // right paddle plane is court_width - paddle_width - 2 * ball_radius = 1570
    let r = cross(1570, 600, 5, 5, 550, 550, &cfg);
    assert_eq!(r, Crossing::Bounce { dx: -5, dy: 5 });
    // left paddle plane is 2 * ball_radius + paddle_width = 30
    let r = cross(30, 620, -5, -5, 550, 550, &cfg);
    assert_eq!(r, Crossing::Bounce { dx: 5, dy: -5 });
}

#[test]
fn paddle_span_is_inclusive_and_misses_outside() {
    let cfg = half_unit_config();
    // both ends of the right paddle's span [550, 650] bounce
    assert_eq!(cross(1570, 550, 5, 5, 0, 550, &cfg), Crossing::Bounce { dx: -5, dy: 5 });
    assert_eq!(cross(1570, 650, 5, 5, 0, 550, &cfg), Crossing::Bounce { dx: -5, dy: 5 });
    // just outside the span the ball passes
    assert_eq!(cross(1570, 545, 5, 5, 0, 550, &cfg), Crossing::Nothing);
    assert_eq!(cross(1570, 655, 5, 5, 0, 550, &cfg), Crossing::Nothing);
    // on the plane but moving away from the paddle: no bounce
    assert_eq!(cross(1570, 600, -5, 5, 0, 550, &cfg), Crossing::Nothing);
}

#[test]
fn side_out_conditions() {
    let cfg = half_unit_config();
    // left goal line (x == ball_radius), moving left: right player wins
    assert_eq!(
        cross(10, 600, -5, 5, 550, 550, &cfg),
        Crossing::SideOut { winner: Side::Right }
    );
    // right goal line (x == court_width - ball_radius), moving right
    assert_eq!(
        cross(1590, 600, 5, 5, 550, 550, &cfg),
        Crossing::SideOut { winner: Side::Left }
    );
    // on a goal line but moving away from it: nothing
    assert_eq!(cross(10, 600, 5, 5, 550, 550, &cfg), Crossing::Nothing);
}

#[test]
fn side_out_takes_priority_over_wall() {
    let cfg = half_unit_config();
    // a corner tick satisfies both the right side-out and the high wall
    // condition; the side-out is declared
    let r = cross(1590, 1190, 5, 5, 550, 550, &cfg);
    assert_eq!(r, Crossing::SideOut { winner: Side::Left });
}

#[test]
fn open_court_is_nothing() {
    let cfg = half_unit_config();
    assert_eq!(cross(795, 595, 5, 5, 550, 550, &cfg), Crossing::Nothing);
}

#[test]
fn paddle_clamp_bounds() {
    let cfg = half_unit_config();
    let mut p = Paddle::new(Side::Left, &cfg);
    assert_eq!(p.pos, 550);
    // walk far past the zero edge: the position never leaves [0, 1100]
    for _ in 0..100 {
        p.handle(PaddleCommand::TowardZero, &cfg);
        assert!(p.pos >= 0);
    }
    assert_eq!(p.pos, 0);
    // and far past the far edge
    for _ in 0..100 {
        p.handle(PaddleCommand::AwayFromZero, &cfg);
        assert!(p.pos <= 1100);
    }
    assert_eq!(p.pos, 1100);
    // an unrecognized command moves nothing
    p.handle(PaddleCommand::Hold, &cfg);
    assert_eq!(p.pos, 1100);
}

#[test]
fn paddle_step_and_reset() {
    let cfg = half_unit_config();
    let mut p = Paddle::new(Side::Right, &cfg);
    p.handle(PaddleCommand::TowardZero, &cfg);
    assert_eq!(p.pos, 530);
    p.handle(PaddleCommand::AwayFromZero, &cfg);
    assert_eq!(p.pos, 550);
    p.win();
    p.win();
    assert_eq!(p.score, 2);
    p.handle(PaddleCommand::AwayFromZero, &cfg);
    p.reset_pos(&cfg);
    assert_eq!(p.pos, 550);
    assert_eq!(p.score, 2);
    assert_eq!(p.side, Side::Right);
}

#[test]
fn side_opposite() {
    assert_eq!(Side::Left.opposite(), Side::Right);
    assert_eq!(Side::Right.opposite(), Side::Left);
}
