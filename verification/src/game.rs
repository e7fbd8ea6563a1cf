use vstd::prelude::*;

use crate::ball::{spec_cross, Ball, Crossing};
use crate::config::GameConfig;
use crate::paddle::{clamped_move, Paddle, PaddleCommand, Side};

verus! {

/// The round controller: owns both paddles and the ball, awards points on a
/// side-out, and resets the round on the tick that follows one.
#[derive(Clone, Copy, PartialEq, Eq, Structural, Debug)]
pub struct Game {
    pub cfg: GameConfig,
    pub left: Paddle,
    pub right: Paddle,
    pub ball: Ball,
    /// True exactly between the tick that saw a side-out and the tick that
    /// resets the round.
    pub round_over: bool,
}

impl Game {
    /// The controller's invariant: a usable configuration, both paddles
    /// inside the court and on their own sides, and the ball's speed
    /// conserved.
    pub open spec fn wf(self) -> bool {
        &&& self.cfg.wf()
        &&& self.left.wf(self.cfg)
        &&& self.right.wf(self.cfg)
        &&& self.ball.speed_ok(self.cfg)
        &&& self.left.side == Side::Left
        &&& self.right.side == Side::Right
    }

    /// The state after a full round reset: both paddles centered, the ball
    /// centered with the canonical initial diagonal velocity, play resumed.
    /// Scores carry over untouched.
    pub open spec fn spec_reset(self) -> Game {
        Game {
            cfg: self.cfg,
            left: Paddle {
                pos: self.cfg.paddle_center() as i64,
                side: self.left.side,
                score: self.left.score,
            },
            right: Paddle {
                pos: self.cfg.paddle_center() as i64,
                side: self.right.side,
                score: self.right.score,
            },
            ball: Ball {
                x: self.cfg.ball_center_x() as i64,
                y: self.cfg.ball_center_y() as i64,
                dx: self.cfg.ball_speed,
                dy: self.cfg.ball_speed,
                crossed: self.ball.crossed,
            },
            round_over: false,
        }
    }

    /// The state one tick later. While a round is in progress the ball
    /// advances; a side-out credits the winning side and suspends play for
    /// one tick. A tick taken while the round is over performs the full
    /// reset.
    pub open spec fn spec_tick(self) -> Game {
        if self.round_over {
            self.spec_reset()
        } else {
            let b = self.ball.spec_step(self.left.pos, self.right.pos, self.cfg);
            match b.crossed {
                Crossing::SideOut { winner } => if winner == Side::Left {
                    Game {
                        cfg: self.cfg,
                        left: Paddle {
                            pos: self.left.pos,
                            side: self.left.side,
                            score: (self.left.score + 1) as u64,
                        },
                        right: self.right,
                        ball: b,
                        round_over: true,
                    }
                } else {
                    Game {
                        cfg: self.cfg,
                        left: self.left,
                        right: Paddle {
                            pos: self.right.pos,
                            side: self.right.side,
                            score: (self.right.score + 1) as u64,
                        },
                        ball: b,
                        round_over: true,
                    }
                },
                _ => Game {
                    cfg: self.cfg,
                    left: self.left,
                    right: self.right,
                    ball: b,
                    round_over: false,
                },
            }
        }
    }

    /// A fresh game: centered paddles with zero scores, a centered ball,
    /// round in progress.
    pub fn new(cfg: GameConfig) -> (g: Game)
        requires
            cfg.wf(),
        ensures
            g.wf(),
            g.cfg == cfg,
            g.left.pos as int == cfg.paddle_center(),
            g.left.score == 0,
            g.right.pos as int == cfg.paddle_center(),
            g.right.score == 0,
            g.ball.x as int == cfg.ball_center_x(),
            g.ball.y as int == cfg.ball_center_y(),
            g.ball.dx == cfg.ball_speed,
            g.ball.dy == cfg.ball_speed,
            g.ball.crossed == Crossing::Nothing,
            g.ball.pos_in_range(),
            !g.round_over,
    {
        Game {
            cfg,
            left: Paddle::new(Side::Left, &cfg),
            right: Paddle::new(Side::Right, &cfg),
            ball: Ball::new(&cfg),
            round_over: false,
        }
    }

    /// Route one movement command to the paddle of the given side; nothing
    /// else changes.
    pub fn move_paddle(&mut self, side: Side, cmd: PaddleCommand)
        requires
            old(self).wf(),
        ensures
            final(self).wf(),
            final(self).cfg == old(self).cfg,
            final(self).ball == old(self).ball,
            final(self).round_over == old(self).round_over,
            final(self).left.score == old(self).left.score,
            final(self).right.score == old(self).right.score,
            side == Side::Left ==> final(self).right == old(self).right && final(self).left.pos
                as int == clamped_move(old(self).left.pos as int, cmd, old(self).cfg),
            side == Side::Right ==> final(self).left == old(self).left && final(self).right.pos
                as int == clamped_move(old(self).right.pos as int, cmd, old(self).cfg),
    {
        let cfg = self.cfg;
        match side {
            Side::Left => self.left.handle(cmd, &cfg),
            Side::Right => self.right.handle(cmd, &cfg),
        }
    }

    /// Perform the full round reset: both paddles and the ball re-centered,
    /// the ball's velocity restored to the canonical initial diagonal, play
    /// resumed. Scores are untouched.
    pub fn reset_round(&mut self)
        requires
            old(self).wf(),
        ensures
            *final(self) == old(self).spec_reset(),
            final(self).wf(),
            final(self).ball.pos_in_range(),
    {
        let cfg = self.cfg;
        self.left.reset_pos(&cfg);
        self.right.reset_pos(&cfg);
        self.ball.reset(&cfg);
        self.round_over = false;
    }

    /// One tick of the round state machine, exactly `spec_tick`: in progress,
    /// the ball advances and a side-out credits the winner and ends the
    /// round; round over, everything resets.
    pub fn tick(&mut self)
        requires
            old(self).wf(),
            old(self).ball.pos_in_range(),
            old(self).left.score < u64::MAX,
            old(self).right.score < u64::MAX,
        ensures
            *final(self) == old(self).spec_tick(),
            final(self).wf(),
    {
        if self.round_over {
            self.reset_round();
        } else {
            let cfg = self.cfg;
            let lp = self.left.pos;
            let rp = self.right.pos;
            self.ball.update(lp, rp, &cfg);
            if let Crossing::SideOut { winner } = self.ball.crossed() {
                match winner {
                    Side::Left => self.left.win(),
                    Side::Right => self.right.win(),
                }
                self.round_over = true;
            }
        }
    }
}

/// Side-out scoring law: with the ball on the right goal line and moving
/// right, the classifier declares a side-out won by the left player, and the
/// tick that observes it increments exactly the left player's score and ends
/// the round.
pub proof fn lemma_side_out_scores_left(g: Game)
    requires
        g.wf(),
        !g.round_over,
        g.left.score < u64::MAX,
        g.ball.dx == g.cfg.ball_speed,
        g.ball.x == g.cfg.right_goal_x(),
    ensures
        spec_cross(g.ball.x, g.ball.y, g.ball.dx, g.ball.dy, g.left.pos, g.right.pos, g.cfg) == (
        Crossing::SideOut { winner: Side::Left }),
        g.spec_tick().left.score == g.left.score + 1,
        g.spec_tick().right.score == g.right.score,
        g.spec_tick().round_over,
{
}

/// Round reset law: on the tick after any side-out, the ball sits at the
/// exact center with the canonical initial velocity and both paddles sit at
/// the exact vertical center, regardless of where anything stood before the
/// score — and the awarded point survives the reset.
pub proof fn lemma_round_reset(g: Game)
    requires
        g.wf(),
        !g.round_over,
        g.left.score < u64::MAX,
        g.right.score < u64::MAX,
        spec_cross(
            g.ball.x,
            g.ball.y,
            g.ball.dx,
            g.ball.dy,
            g.left.pos,
            g.right.pos,
            g.cfg,
        ) matches Crossing::SideOut { winner: _ },
    ensures
        ({
            let g2 = g.spec_tick().spec_tick();
            &&& g2.ball.x as int == g.cfg.ball_center_x()
            &&& g2.ball.y as int == g.cfg.ball_center_y()
            &&& g2.ball.dx == g.cfg.ball_speed
            &&& g2.ball.dy == g.cfg.ball_speed
            &&& g2.left.pos as int == g.cfg.paddle_center()
            &&& g2.right.pos as int == g.cfg.paddle_center()
            &&& g2.left.score == g.spec_tick().left.score
            &&& g2.right.score == g.spec_tick().right.score
            &&& !g2.round_over
        }),
{
}

} // verus!
