use vstd::prelude::*;

use crate::config::GameConfig;

verus! {

/// Which player a paddle (or a won round) belongs to.
#[derive(Clone, Copy, PartialEq, Eq, Structural, Debug)]
pub enum Side {
    Left,
    Right,
}

impl Side {
    /// The other player.
    pub open spec fn spec_opposite(self) -> Side {
        match self {
            Side::Left => Side::Right,
            Side::Right => Side::Left,
        }
    }

    /// The other player.
    pub fn opposite(&self) -> (r: Side)
        ensures
            r == self.spec_opposite(),
    {
        match self {
            Side::Left => Side::Right,
            Side::Right => Side::Left,
        }
    }
}

/// One discrete movement command for a paddle, delivered by the input
/// collaborator on a key event. `Hold` is the no-op every unrecognized key
/// maps to.
#[derive(Clone, Copy, PartialEq, Eq, Structural, Debug)]
pub enum PaddleCommand {
    TowardZero,
    AwayFromZero,
    Hold,
}

/// Where a paddle at `pos` ends up after one command: one step toward or away
/// from zero, clamped to `[0, paddle_max]`.
pub open spec fn clamped_move(pos: int, cmd: PaddleCommand, cfg: GameConfig) -> int {
    match cmd {
        PaddleCommand::TowardZero => if pos - cfg.paddle_step < 0 {
            0
        } else {
            pos - cfg.paddle_step
        },
        PaddleCommand::AwayFromZero => if pos + cfg.paddle_step > cfg.paddle_max() {
            cfg.paddle_max()
        } else {
            pos + cfg.paddle_step
        },
        PaddleCommand::Hold => pos,
    }
}

/// Where a paddle at `pos` ends up after a whole sequence of commands.
pub open spec fn apply_commands(pos: int, cmds: Seq<PaddleCommand>, cfg: GameConfig) -> int
    decreases cmds.len(),
{
    if cmds.len() == 0 {
        pos
    } else {
        apply_commands(clamped_move(pos, cmds[0], cfg), cmds.subrange(1, cmds.len() as int), cfg)
    }
}

/// One command keeps a paddle inside `[0, paddle_max]`.
pub proof fn lemma_clamped_move_in_range(pos: int, cmd: PaddleCommand, cfg: GameConfig)
    requires
        cfg.wf(),
        0 <= pos <= cfg.paddle_max(),
    ensures
        0 <= clamped_move(pos, cmd, cfg) <= cfg.paddle_max(),
{
}

/// Paddle clamp law: under every sequence of movement commands, a paddle that
/// starts inside `[0, court_height - paddle_height]` stays inside it.
pub proof fn lemma_paddle_clamp(pos: int, cmds: Seq<PaddleCommand>, cfg: GameConfig)
    requires
        cfg.wf(),
        0 <= pos <= cfg.paddle_max(),
    ensures
        0 <= apply_commands(pos, cmds, cfg) <= cfg.paddle_max(),
    decreases cmds.len(),
{
    if cmds.len() > 0 {
        lemma_clamped_move_in_range(pos, cmds[0], cfg);
        lemma_paddle_clamp(
            clamped_move(pos, cmds[0], cfg),
            cmds.subrange(1, cmds.len() as int),
            cfg,
        );
    }
}

/// One player's paddle: an axis position along the court's short axis, a fixed
/// side, and that player's win count.
#[derive(Clone, Copy, PartialEq, Eq, Structural, Debug)]
pub struct Paddle {
    /// Offset along the movement axis, within `[0, court_height - paddle_height]`.
    pub pos: i64,
    /// Which player this paddle belongs to; fixed for the paddle's lifetime.
    pub side: Side,
    /// Rounds this player has won; only ever incremented by a side-out.
    pub score: u64,
}

impl Paddle {
    /// The paddle sits inside the court.
    pub open spec fn wf(self, cfg: GameConfig) -> bool {
        0 <= self.pos <= cfg.paddle_max()
    }

    /// A fresh paddle: centered, score zero.
    pub fn new(side: Side, cfg: &GameConfig) -> (p: Paddle)
        requires
            cfg.wf(),
        ensures
            p.wf(*cfg),
            p.pos as int == cfg.paddle_center(),
            p.side == side,
            p.score == 0,
    {
        Paddle { pos: cfg.paddle_center_pos(), side, score: 0 }
    }

    /// Apply one movement command, clamped to the court: never an error, and
    /// never a position outside `[0, court_height - paddle_height]`.
    pub fn handle(&mut self, cmd: PaddleCommand, cfg: &GameConfig)
        requires
            cfg.wf(),
            old(self).wf(*cfg),
        ensures
            final(self).wf(*cfg),
            final(self).pos as int == clamped_move(old(self).pos as int, cmd, *cfg),
            final(self).side == old(self).side,
            final(self).score == old(self).score,
    {
        match cmd {
            PaddleCommand::TowardZero => {
                if self.pos - cfg.paddle_step < 0 {
                    self.pos = 0;
                } else {
                    self.pos = self.pos - cfg.paddle_step;
                }
            },
            PaddleCommand::AwayFromZero => {
                let max = cfg.paddle_max_pos();
                if self.pos + cfg.paddle_step > max {
                    self.pos = max;
                } else {
                    self.pos = self.pos + cfg.paddle_step;
                }
            },
            PaddleCommand::Hold => {},
        }
    }

    /// Credit this player with one won round.
    pub fn win(&mut self)
        requires
            old(self).score < u64::MAX,
        ensures
            final(self).score == old(self).score + 1,
            final(self).pos == old(self).pos,
            final(self).side == old(self).side,
    {
        self.score = self.score + 1;
    }

    /// Put the paddle back at the court's center; the score is untouched.
    pub fn reset_pos(&mut self, cfg: &GameConfig)
        requires
            cfg.wf(),
        ensures
            final(self).wf(*cfg),
            final(self).pos as int == cfg.paddle_center(),
            final(self).side == old(self).side,
            final(self).score == old(self).score,
    {
        self.pos = cfg.paddle_center_pos();
    }
}

} // verus!
