use vstd::prelude::*;

verus! {

/// Every dimension and speed in a configuration stays at or below this bound,
/// so that the handful of additions the simulation performs each tick can be
/// shown free of overflow.
pub const DIM_LIMIT: i64 = 1_000_000;

/// Geometry and speed constants for one simulation, on an integer grid.
///
/// Instead of process-wide globals, each paddle, ball and game operation takes
/// the configuration explicitly, so several simulations with different
/// parameters can coexist.
#[derive(Clone, Copy, PartialEq, Eq, Structural, Debug)]
pub struct GameConfig {
    /// Horizontal extent of the court.
    pub court_width: i64,
    /// Vertical extent of the court.
    pub court_height: i64,
    /// Horizontal thickness of each paddle.
    pub paddle_width: i64,
    /// Vertical extent of each paddle.
    pub paddle_height: i64,
    /// How far a paddle moves on one movement command.
    pub paddle_step: i64,
    /// Radius of the ball.
    pub ball_radius: i64,
    /// Magnitude of each velocity component of the ball.
    pub ball_speed: i64,
}

impl GameConfig {
    /// A usable configuration: everything positive, the paddle fits in the
    /// court, and all values small enough that tick arithmetic cannot
    /// overflow.
    pub open spec fn wf(self) -> bool {
        &&& 0 < self.court_width <= DIM_LIMIT
        &&& 0 < self.court_height <= DIM_LIMIT
        &&& 0 < self.paddle_width <= DIM_LIMIT
        &&& 0 < self.paddle_height <= self.court_height
        &&& 0 < self.paddle_step <= DIM_LIMIT
        &&& 0 < self.ball_radius <= DIM_LIMIT
        &&& 0 < self.ball_speed <= DIM_LIMIT
        &&& 2 * self.ball_radius < self.court_width
        &&& 2 * self.ball_radius < self.court_height
    }

    /// The x coordinate at which a ball moving left has left the court.
    pub open spec fn left_goal_x(self) -> int {
        self.ball_radius as int
    }

    /// The x coordinate at which a ball moving right has left the court.
    pub open spec fn right_goal_x(self) -> int {
        self.court_width - self.ball_radius
    }

    /// Gap between the court's left edge and the left paddle.
    pub open spec fn left_offset(self) -> int {
        2 * self.ball_radius
    }

    /// The x plane a left-moving ball bounces off when the left paddle covers
    /// it: the paddle's right face.
    pub open spec fn left_plane_x(self) -> int {
        self.left_offset() + self.paddle_width
    }

    /// The x plane a right-moving ball bounces off when the right paddle
    /// covers it: the paddle's left face.
    pub open spec fn right_plane_x(self) -> int {
        self.court_width - self.paddle_width - self.left_offset()
    }

    /// The y coordinate of the wall a downward-moving ball bounces off.
    pub open spec fn wall_low_y(self) -> int {
        self.ball_radius as int
    }

    /// The y coordinate of the wall an upward-moving ball bounces off.
    pub open spec fn wall_high_y(self) -> int {
        self.court_height - self.ball_radius
    }

    /// Greatest axis position a paddle may occupy.
    pub open spec fn paddle_max(self) -> int {
        self.court_height - self.paddle_height
    }

    /// Axis position of a paddle centered in the court.
    pub open spec fn paddle_center(self) -> int {
        (self.court_height - self.paddle_height) / 2
    }

    /// The x coordinate of a ball placed at the court's center.
    pub open spec fn ball_center_x(self) -> int {
        (self.court_width - self.ball_radius) / 2
    }

    /// The y coordinate of a ball placed at the court's center.
    pub open spec fn ball_center_y(self) -> int {
        (self.court_height - self.ball_radius) / 2
    }

    /// Greatest axis position a paddle may occupy.
    pub fn paddle_max_pos(&self) -> (r: i64)
        requires
            self.wf(),
        ensures
            r as int == self.paddle_max(),
    {
        self.court_height - self.paddle_height
    }

    /// Axis position of a paddle centered in the court.
    pub fn paddle_center_pos(&self) -> (r: i64)
        requires
            self.wf(),
        ensures
            r as int == self.paddle_center(),
            0 <= r as int <= self.paddle_max(),
    {
        (self.court_height - self.paddle_height) / 2
    }

    /// The x coordinate of a ball placed at the court's center.
    pub fn ball_center_x_pos(&self) -> (r: i64)
        requires
            self.wf(),
        ensures
            r as int == self.ball_center_x(),
    {
        (self.court_width - self.ball_radius) / 2
    }

    /// The y coordinate of a ball placed at the court's center.
    pub fn ball_center_y_pos(&self) -> (r: i64)
        requires
            self.wf(),
        ensures
            r as int == self.ball_center_y(),
    {
        (self.court_height - self.ball_radius) / 2
    }
}

} // verus!
