use vstd::prelude::*;

use crate::config::GameConfig;
use crate::paddle::Side;

verus! {

/// Positions stay within this bound, which keeps `position + velocity` inside
/// `i64` (the bound is a quarter of the `i64` range, velocities are at most
/// `DIM_LIMIT`).
pub const POS_LIMIT: i64 = 0x2000_0000_0000_0000;

/// What the ball crossed on one tick: nothing, a wall or paddle (with the
/// reflected velocity it leaves with), or a side boundary (with the side that
/// wins the round).
#[derive(Clone, Copy, PartialEq, Eq, Structural, Debug)]
pub enum Crossing {
    Nothing,
    Bounce { dx: i64, dy: i64 },
    SideOut { winner: Side },
}

/// The crossing classifier: pure function from ball position, ball velocity
/// and both paddle positions to the one outcome of this tick.
///
/// Conditions are tried in priority order — left side-out, right side-out,
/// wall, paddle — and the first match wins, so a ball that reaches a side
/// boundary scores even if it touches a wall on the same tick. Boundary tests
/// are exact comparisons: on the integer grid a ball moving in fixed steps
/// lands exactly on the boundary value on the tick it crosses, provided the
/// speed divides the boundary offsets.
pub open spec fn spec_cross(
    x: i64,
    y: i64,
    dx: i64,
    dy: i64,
    left_pos: i64,
    right_pos: i64,
    cfg: GameConfig,
) -> Crossing {
    let s = cfg.ball_speed as int;
    if dx == -s && x == cfg.left_goal_x() {
        Crossing::SideOut { winner: Side::Right }
    } else if dx == s && x == cfg.right_goal_x() {
        Crossing::SideOut { winner: Side::Left }
    } else if (dy == s && y == cfg.wall_high_y()) || (dy == -s && y == cfg.wall_low_y()) {
        Crossing::Bounce { dx, dy: (-(dy as int)) as i64 }
    } else if (dx == -s && x == cfg.left_plane_x() && left_pos <= y && y
        <= left_pos + cfg.paddle_height) || (dx == s && x == cfg.right_plane_x() && right_pos <= y
        && y <= right_pos + cfg.paddle_height) {
        Crossing::Bounce { dx: (-(dx as int)) as i64, dy }
    } else {
        Crossing::Nothing
    }
}

/// The horizontal velocity after a crossing: a bounce replaces it, anything
/// else keeps it.
pub open spec fn dx_after(dx: i64, c: Crossing) -> i64 {
    match c {
        Crossing::Bounce { dx: ndx, dy: _ } => ndx,
        _ => dx,
    }
}

/// The vertical velocity after a crossing: a bounce replaces it, anything
/// else keeps it.
pub open spec fn dy_after(dy: i64, c: Crossing) -> i64 {
    match c {
        Crossing::Bounce { dx: _, dy: ndy } => ndy,
        _ => dy,
    }
}

/// The crossing classifier, executable form.
pub fn cross(
    x: i64,
    y: i64,
    dx: i64,
    dy: i64,
    left_pos: i64,
    right_pos: i64,
    cfg: &GameConfig,
) -> (r: Crossing)
    requires
        cfg.wf(),
        0 <= left_pos as int <= cfg.paddle_max(),
        0 <= right_pos as int <= cfg.paddle_max(),
    ensures
        r == spec_cross(x, y, dx, dy, left_pos, right_pos, *cfg),
{
    let s = cfg.ball_speed;
    let left_side = dx == -s && x == cfg.ball_radius;
    let right_side = dx == s && x == cfg.court_width - cfg.ball_radius;
    let wall = (dy == s && y == cfg.court_height - cfg.ball_radius) || (dy == -s && y
        == cfg.ball_radius);
    let left_player = dx == -s && x == 2 * cfg.ball_radius + cfg.paddle_width && y >= left_pos && y
        <= left_pos + cfg.paddle_height;
    let right_player = dx == s && x == cfg.court_width - cfg.paddle_width - 2 * cfg.ball_radius
        && y >= right_pos && y <= right_pos + cfg.paddle_height;
    if left_side {
        Crossing::SideOut { winner: Side::Right }
    } else if right_side {
        Crossing::SideOut { winner: Side::Left }
    } else if wall {
        Crossing::Bounce { dx, dy: -dy }
    } else if left_player || right_player {
        Crossing::Bounce { dx: -dx, dy }
    } else {
        Crossing::Nothing
    }
}

/// The ball: a position and a velocity on the court's integer grid, plus the
/// outcome the classifier produced on the most recent tick.
#[derive(Clone, Copy, PartialEq, Eq, Structural, Debug)]
pub struct Ball {
    pub x: i64,
    pub y: i64,
    pub dx: i64,
    pub dy: i64,
    /// Outcome of the most recent `update`, for the round controller to read.
    pub crossed: Crossing,
}

impl Ball {
    /// Speed conservation invariant: each velocity component is exactly plus
    /// or minus the configured speed — bounces flip signs, never magnitudes.
    pub open spec fn speed_ok(self, cfg: GameConfig) -> bool {
        &&& (self.dx == cfg.ball_speed || self.dx == -(cfg.ball_speed as int))
        &&& (self.dy == cfg.ball_speed || self.dy == -(cfg.ball_speed as int))
    }

    /// The position is far from the edge of `i64`, so one more step fits.
    pub open spec fn pos_in_range(self) -> bool {
        &&& -POS_LIMIT <= self.x <= POS_LIMIT
        &&& -POS_LIMIT <= self.y <= POS_LIMIT
    }

    /// The ball one tick later: the classifier's outcome is recorded, a
    /// bounce replaces the velocity, and the position advances by the
    /// (possibly reflected) velocity.
    pub open spec fn spec_step(self, left_pos: i64, right_pos: i64, cfg: GameConfig) -> Ball {
        let c = spec_cross(self.x, self.y, self.dx, self.dy, left_pos, right_pos, cfg);
        let ndx = dx_after(self.dx, c);
        let ndy = dy_after(self.dy, c);
        Ball {
            x: (self.x + ndx) as i64,
            y: (self.y + ndy) as i64,
            dx: ndx,
            dy: ndy,
            crossed: c,
        }
    }

    /// A fresh ball: court center, moving diagonally at the configured speed,
    /// nothing crossed yet.
    pub fn new(cfg: &GameConfig) -> (b: Ball)
        requires
            cfg.wf(),
        ensures
            b.x as int == cfg.ball_center_x(),
            b.y as int == cfg.ball_center_y(),
            b.dx == cfg.ball_speed,
            b.dy == cfg.ball_speed,
            b.crossed == Crossing::Nothing,
            b.speed_ok(*cfg),
            b.pos_in_range(),
    {
        Ball {
            x: cfg.ball_center_x_pos(),
            y: cfg.ball_center_y_pos(),
            dx: cfg.ball_speed,
            dy: cfg.ball_speed,
            crossed: Crossing::Nothing,
        }
    }

    /// One tick: classify the crossing, reflect on a bounce, then advance the
    /// position by the velocity. Speed magnitude is conserved.
    pub fn update(&mut self, left_pos: i64, right_pos: i64, cfg: &GameConfig)
        requires
            cfg.wf(),
            old(self).speed_ok(*cfg),
            old(self).pos_in_range(),
            0 <= left_pos as int <= cfg.paddle_max(),
            0 <= right_pos as int <= cfg.paddle_max(),
        ensures
            *final(self) == old(self).spec_step(left_pos, right_pos, *cfg),
            final(self).speed_ok(*cfg),
    {
        let c = cross(self.x, self.y, self.dx, self.dy, left_pos, right_pos, cfg);
        self.crossed = c;
        if let Crossing::Bounce { dx, dy } = c {
            self.dx = dx;
            self.dy = dy;
        }
        self.x = self.x + self.dx;
        self.y = self.y + self.dy;
    }

    /// The outcome of the most recent tick (read-only).
    pub fn crossed(&self) -> (r: Crossing)
        ensures
            r == self.crossed,
    {
        self.crossed
    }

    /// Put the ball back at the court's center with the canonical initial
    /// diagonal velocity, so a restarted round does not carry over the losing
    /// direction.
    pub fn reset(&mut self, cfg: &GameConfig)
        requires
            cfg.wf(),
        ensures
            final(self).x as int == cfg.ball_center_x(),
            final(self).y as int == cfg.ball_center_y(),
            final(self).dx == cfg.ball_speed,
            final(self).dy == cfg.ball_speed,
            final(self).crossed == old(self).crossed,
            final(self).speed_ok(*cfg),
            final(self).pos_in_range(),
    {
        self.x = cfg.ball_center_x_pos();
        self.y = cfg.ball_center_y_pos();
        self.dx = cfg.ball_speed;
        self.dy = cfg.ball_speed;
    }
}

/// Speed conservation law: whatever one tick classifies, the stepped ball's
/// velocity components still have the configured magnitude.
pub proof fn lemma_speed_conserved(b: Ball, left_pos: i64, right_pos: i64, cfg: GameConfig)
    requires
        cfg.wf(),
        b.speed_ok(cfg),
    ensures
        b.spec_step(left_pos, right_pos, cfg).speed_ok(cfg),
{
}

/// Wall bounce law: a ball on a wall and moving into it bounces with only the
/// vertical component reflected — `dx` is unchanged. The side-out conditions
/// are excluded because they take priority over a wall crossing.
pub proof fn lemma_wall_bounce_vertical_only(
    x: i64,
    y: i64,
    dx: i64,
    dy: i64,
    left_pos: i64,
    right_pos: i64,
    cfg: GameConfig,
)
    requires
        cfg.wf(),
        y == cfg.wall_low_y() && dy == -(cfg.ball_speed as int) || y == cfg.wall_high_y() && dy
            == cfg.ball_speed,
        !(dx == -(cfg.ball_speed as int) && x == cfg.left_goal_x()),
        !(dx == cfg.ball_speed && x == cfg.right_goal_x()),
    ensures
        spec_cross(x, y, dx, dy, left_pos, right_pos, cfg) == (Crossing::Bounce {
            dx,
            dy: (-(dy as int)) as i64,
        }),
{
}

/// Paddle bounce law: a ball on the right paddle's plane, moving toward it,
/// with its y inside the paddle's span, bounces with only the horizontal
/// component reflected — `dy` is unchanged. The wall conditions are excluded
/// because they take priority over a paddle crossing; neither side-out
/// condition can hold here, since under a well-formed configuration the
/// paddle's plane never coincides with a goal line.
pub proof fn lemma_paddle_bounce_horizontal_only(
    x: i64,
    y: i64,
    dx: i64,
    dy: i64,
    left_pos: i64,
    right_pos: i64,
    cfg: GameConfig,
)
    requires
        cfg.wf(),
        dx == cfg.ball_speed,
        x == cfg.right_plane_x(),
        right_pos <= y <= right_pos + cfg.paddle_height,
        !(dy == cfg.ball_speed && y == cfg.wall_high_y()),
        !(dy == -(cfg.ball_speed as int) && y == cfg.wall_low_y()),
    ensures
        spec_cross(x, y, dx, dy, left_pos, right_pos, cfg) == (Crossing::Bounce {
            dx: (-(cfg.ball_speed as int)) as i64,
            dy,
        }),
{
}

} // verus!
