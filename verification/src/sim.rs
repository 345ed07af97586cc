//! The match simulator: paddles, ball, scores, and the tick rules.
//!
//! Distances are measured in subpixels (thousandths of a pixel) and time in
//! milliseconds, so a velocity of `300_000` subpixels per second is 300
//! pixels per second. Each operation is specified exactly by a spec function
//! over the mathematical model [`MatchV`].

use vstd::prelude::*;

verus! {

/// Subpixels in one pixel: all distances below are scaled by this.
pub const SUBPIXELS_PER_PIXEL: i64 = 1000;

/// Milliseconds in one second: velocities are per second, ticks per millisecond.
pub const MILLIS_PER_SECOND: i64 = 1000;

/// Playfield width.
pub const SCREEN_WIDTH: i64 = 800 * SUBPIXELS_PER_PIXEL;

/// Playfield height.
pub const SCREEN_HEIGHT: i64 = 600 * SUBPIXELS_PER_PIXEL;

/// Horizontal thickness of each paddle.
pub const PADDLE_WIDTH: i64 = 10 * SUBPIXELS_PER_PIXEL;

/// Vertical extent of each paddle.
pub const PADDLE_HEIGHT: i64 = 100 * SUBPIXELS_PER_PIXEL;

/// Side length of the square ball.
pub const BALL_SIZE: i64 = 10 * SUBPIXELS_PER_PIXEL;

/// Paddle speed in subpixels per second.
pub const PADDLE_SPEED: i64 = 425 * SUBPIXELS_PER_PIXEL;

/// Horizontal ball speed in subpixels per second; also the base scale of the
/// serve angle and of the deflection a paddle hit adds.
pub const BALL_SPEED: i64 = 300 * SUBPIXELS_PER_PIXEL;

/// Left edge of the left paddle.
pub const PADDLE_LEFT_X: i64 = 30 * SUBPIXELS_PER_PIXEL;

/// Left edge of the right paddle.
pub const PADDLE_RIGHT_X: i64 = SCREEN_WIDTH - 40 * SUBPIXELS_PER_PIXEL - PADDLE_WIDTH;

/// Half the ball, `BALL_SIZE / 2`.
pub const BALL_HALF: i64 = 5 * SUBPIXELS_PER_PIXEL;

/// Half a paddle, `PADDLE_HEIGHT / 2`.
pub const PADDLE_HALF: i64 = 50 * SUBPIXELS_PER_PIXEL;

/// Deflection added per subpixel of impact offset, `BALL_SPEED / PADDLE_HEIGHT`.
pub const IMPACT_FACTOR: i64 = 3;

/// The serve angle is an integer in `[-ANGLE_UNIT, ANGLE_UNIT]`, standing for
/// a fraction of `BALL_SPEED` in thousandths.
pub const ANGLE_UNIT: i64 = 1000;

/// Vertical speed per unit of serve angle, `BALL_SPEED / ANGLE_UNIT`.
pub const ANGLE_SPEED: i64 = 300;

/// Greatest paddle position: paddles stay in `[0, PADDLE_TOP_MAX]`.
pub const PADDLE_TOP_MAX: i64 = SCREEN_HEIGHT - PADDLE_HEIGHT;

/// Ball position after a reset, `(SCREEN_WIDTH - BALL_SIZE) / 2`: centered.
pub const BALL_RESET_X: i64 = 395 * SUBPIXELS_PER_PIXEL;

/// Ball position after a reset, `(SCREEN_HEIGHT - BALL_SIZE) / 2`: centered.
pub const BALL_RESET_Y: i64 = 295 * SUBPIXELS_PER_PIXEL;

/// Initial paddle position, `(SCREEN_HEIGHT - PADDLE_HEIGHT) / 2`: centered.
pub const PADDLE_START: i64 = 250 * SUBPIXELS_PER_PIXEL;

/// Cap on the magnitude of the ball's vertical velocity. Far above anything a
/// game reaches (a million pixels per second); it exists so that the integer
/// arithmetic of a tick can never overflow.
pub const VEL_LIMIT: i64 = 1_000_000_000;

/// Cap on the magnitude of ball coordinates, for the same reason. The screen
/// is nine orders of magnitude smaller.
pub const POS_LIMIT: i64 = 1_000_000_000_000_000;

/// Largest distance one tick can move anything:
/// `VEL_LIMIT * u32::MAX / MILLIS_PER_SECOND`.
pub const STEP_LIMIT: i64 = 4_294_967_295_000_000;

/// The mathematical model of a match: paddle positions, ball position and
/// velocity, and both scores, as unbounded integers.
pub struct MatchV {
    /// Top edge of the left paddle.
    pub p1: int,
    /// Top edge of the right paddle.
    pub p2: int,
    /// Ball top-left corner, horizontal.
    pub bx: int,
    /// Ball top-left corner, vertical.
    pub by: int,
    /// Ball velocity, horizontal (positive is rightward).
    pub vx: int,
    /// Ball velocity, vertical (positive is downward).
    pub vy: int,
    /// Left player's score.
    pub s1: int,
    /// Right player's score.
    pub s2: int,
}

impl MatchV {
    /// Validity of a match state: paddles inside the playfield, ball
    /// coordinates and vertical velocity within their caps, horizontal
    /// velocity exactly `BALL_SPEED` one way or the other.
    pub open spec fn wf(self) -> bool {
        &&& 0 <= self.p1 <= PADDLE_TOP_MAX
        &&& 0 <= self.p2 <= PADDLE_TOP_MAX
        &&& -POS_LIMIT <= self.bx <= POS_LIMIT
        &&& -POS_LIMIT <= self.by <= POS_LIMIT
        &&& (self.vx == BALL_SPEED || self.vx == -BALL_SPEED)
        &&& -VEL_LIMIT <= self.vy <= VEL_LIMIT
        &&& 0 <= self.s1 <= u32::MAX
        &&& 0 <= self.s2 <= u32::MAX
    }
}

/// The four movement intents sampled once per tick: up and down for each
/// paddle. Key bindings are the host's concern.
#[derive(Clone, Copy, PartialEq, Eq, Structural, Debug)]
pub struct InputState {
    /// Left paddle moves up this tick.
    pub p1_up: bool,
    /// Left paddle moves down this tick.
    pub p1_down: bool,
    /// Right paddle moves up this tick.
    pub p2_up: bool,
    /// Right paddle moves down this tick.
    pub p2_down: bool,
}

/// The match state: two paddles, one ball, two scores.
///
/// Every mutating operation requires and preserves `self@.wf()` and states
/// its result exactly over the model [`MatchV`].
#[derive(Clone, Copy, PartialEq, Eq, Structural, Debug)]
pub struct GameState {
    /// Top edge of the left paddle, subpixels.
    pub player1_pos: i64,
    /// Top edge of the right paddle, subpixels.
    pub player2_pos: i64,
    /// Ball top-left corner, horizontal, subpixels.
    pub ball_pos_x: i64,
    /// Ball top-left corner, vertical, subpixels.
    pub ball_pos_y: i64,
    /// Ball velocity, horizontal, subpixels per second.
    pub ball_vel_x: i64,
    /// Ball velocity, vertical, subpixels per second.
    pub ball_vel_y: i64,
    /// Left player's score.
    pub player1_score: u32,
    /// Right player's score.
    pub player2_score: u32,
}

impl View for GameState {
    type V = MatchV;

    open spec fn view(&self) -> MatchV {
        MatchV {
            p1: self.player1_pos as int,
            p2: self.player2_pos as int,
            bx: self.ball_pos_x as int,
            by: self.ball_pos_y as int,
            vx: self.ball_vel_x as int,
            vy: self.ball_vel_y as int,
            s1: self.player1_score as int,
            s2: self.player2_score as int,
        }
    }
}

/// `v` held into `[lo, hi]`.
pub open spec fn spec_clamp(v: int, lo: int, hi: int) -> int {
    if v < lo {
        lo
    } else if v > hi {
        hi
    } else {
        v
    }
}

/// The distance covered in `dt` milliseconds at `vel` subpixels per second,
/// rounded toward zero.
pub open spec fn spec_scaled(vel: int, dt: int) -> int {
    if vel >= 0 {
        (vel * dt) / (MILLIS_PER_SECOND as int)
    } else {
        -(((-vel) * dt) / (MILLIS_PER_SECOND as int))
    }
}

/// One paddle's motion in one tick: moved up while `up` is held, then down
/// while `down` is held, each move clamped at the edge it runs toward.
pub open spec fn spec_move_paddle(pos: int, up: bool, down: bool, dt: int) -> int {
    let step = spec_scaled(PADDLE_SPEED as int, dt);
    let after_up = if up {
        if pos - step < 0 {
            0
        } else {
            pos - step
        }
    } else {
        pos
    };
    if down {
        if after_up + step > PADDLE_TOP_MAX {
            PADDLE_TOP_MAX as int
        } else {
            after_up + step
        }
    } else {
        after_up
    }
}

/// Both paddles moved by the held intents; ball and scores untouched.
pub open spec fn spec_apply_paddle_input(v: MatchV, input: InputState, dt: int) -> MatchV {
    MatchV {
        p1: spec_move_paddle(v.p1, input.p1_up, input.p1_down, dt),
        p2: spec_move_paddle(v.p2, input.p2_up, input.p2_down, dt),
        ..v
    }
}

/// `v` held into `[-VEL_LIMIT, VEL_LIMIT]`.
pub open spec fn spec_clamp_vel(v: int) -> int {
    spec_clamp(v, -VEL_LIMIT as int, VEL_LIMIT as int)
}

/// Bounding-box overlap of the ball with a paddle whose left edge is at
/// `px` and whose top edge is at `py`.
pub open spec fn spec_overlaps(v: MatchV, px: int, py: int) -> bool {
    &&& v.bx <= px + PADDLE_WIDTH
    &&& v.bx + BALL_SIZE >= px
    &&& v.by + BALL_SIZE >= py
    &&& v.by <= py + PADDLE_HEIGHT
}

/// A hit on the left paddle: overlap while the ball moves leftward.
pub open spec fn spec_left_hit(v: MatchV) -> bool {
    spec_overlaps(v, PADDLE_LEFT_X as int, v.p1) && v.vx < 0
}

/// A hit on the right paddle: overlap while the ball moves rightward.
pub open spec fn spec_right_hit(v: MatchV) -> bool {
    spec_overlaps(v, PADDLE_RIGHT_X as int, v.p2) && v.vx > 0
}

/// The vertical deflection a hit adds: the offset of the ball's center from
/// the paddle's center, scaled by `BALL_SPEED / PADDLE_HEIGHT`. A hit near
/// an end of the paddle returns the ball at a steeper angle.
pub open spec fn spec_impact(by: int, py: int) -> int {
    (by + BALL_HALF - (py + PADDLE_HALF)) * IMPACT_FACTOR
}

/// The outcome of a hit: horizontal velocity reversed, deflection added to
/// the vertical velocity (held into the velocity cap).
pub open spec fn spec_bounce(v: MatchV, py: int) -> MatchV {
    MatchV { vx: -v.vx, vy: spec_clamp_vel(v.vy + spec_impact(v.by, py)), ..v }
}

/// The left paddle's test-and-bounce.
pub open spec fn spec_resolve_left(v: MatchV) -> MatchV {
    if spec_left_hit(v) {
        spec_bounce(v, v.p1)
    } else {
        v
    }
}

/// The right paddle's test-and-bounce.
pub open spec fn spec_resolve_right(v: MatchV) -> MatchV {
    if spec_right_hit(v) {
        spec_bounce(v, v.p2)
    } else {
        v
    }
}

/// One collision pass: the left paddle's test, then the right paddle's on
/// its outcome. The directional conditions in the hit tests keep a second
/// pass from bouncing the ball back again.
pub open spec fn spec_resolve_paddle_collision(v: MatchV) -> MatchV {
    spec_resolve_right(spec_resolve_left(v))
}

/// A score raised by one point, held below the width of its counter. The
/// cap is unreachable in play; it only keeps the counter from wrapping.
pub open spec fn spec_bump(s: int) -> int {
    if s < u32::MAX {
        s + 1
    } else {
        s
    }
}

/// The ball put back for a serve: centered, horizontal velocity `BALL_SPEED`
/// toward the given side, vertical velocity the serve angle's fraction of
/// `BALL_SPEED`. Paddles and scores untouched.
pub open spec fn spec_reset_ball(v: MatchV, to_right: bool, angle: int) -> MatchV {
    MatchV {
        bx: BALL_RESET_X as int,
        by: BALL_RESET_Y as int,
        vx: if to_right {
            BALL_SPEED as int
        } else {
            -BALL_SPEED as int
        },
        vy: (ANGLE_SPEED as int) * angle,
        ..v
    }
}

/// Scoring: a ball fully past the left boundary is a point for the right
/// player, one fully past the right boundary a point for the left player;
/// either is followed by a serve toward the side the ball left by. A ball
/// within the boundaries changes nothing.
pub open spec fn spec_update_score_and_reset(v: MatchV, angle: int) -> MatchV {
    if v.bx < 0 {
        spec_reset_ball(MatchV { s2: spec_bump(v.s2), ..v }, true, angle)
    } else if v.bx > SCREEN_WIDTH {
        spec_reset_ball(MatchV { s1: spec_bump(v.s1), ..v }, false, angle)
    } else {
        v
    }
}

/// Whether a ball whose top edge is at `by` touches or crosses the top or
/// bottom boundary.
pub open spec fn spec_wall_crossed(by: int) -> bool {
    by <= 0 || by + BALL_SIZE >= SCREEN_HEIGHT
}

/// The ball integrated over `dt` milliseconds: each coordinate moved by its
/// velocity's distance (held into the coordinate cap), then the vertical
/// velocity reversed exactly when the new position touches or crosses the
/// top or bottom boundary, and kept otherwise.
pub open spec fn spec_advance_ball(v: MatchV, dt: int) -> MatchV {
    let nbx = spec_clamp(v.bx + spec_scaled(v.vx, dt), -POS_LIMIT as int, POS_LIMIT as int);
    let nby = spec_clamp(v.by + spec_scaled(v.vy, dt), -POS_LIMIT as int, POS_LIMIT as int);
    MatchV {
        bx: nbx,
        by: nby,
        vy: if spec_wall_crossed(nby) {
            -v.vy
        } else {
            v.vy
        },
        ..v
    }
}

/// One full tick. A tick first resolves what the previous tick's motion led
/// to — paddle hits, then scoring with its serve — and only then applies the
/// new motion: paddle input, then ball integration with the wall bounce. A
/// ball that leaves the field on one tick is therefore scored at the start
/// of the next.
pub open spec fn spec_update(v: MatchV, input: InputState, dt: int, angle: int) -> MatchV {
    spec_advance_ball(
        spec_apply_paddle_input(
            spec_update_score_and_reset(spec_resolve_paddle_collision(v), angle),
            input,
            dt,
        ),
        dt,
    )
}

/// The state a match starts from: paddles and ball centered, ball moving
/// left at `BALL_SPEED`, both scores zero.
pub open spec fn spec_initial() -> MatchV {
    MatchV {
        p1: PADDLE_START as int,
        p2: PADDLE_START as int,
        bx: BALL_RESET_X as int,
        by: BALL_RESET_Y as int,
        vx: -BALL_SPEED as int,
        vy: 0,
        s1: 0,
        s2: 0,
    }
}

/// The distance covered in `dt` milliseconds at `vel` subpixels per second,
/// rounded toward zero.
fn scaled_step(vel: i64, dt: u32) -> (r: i64)
    requires
        -VEL_LIMIT <= vel <= VEL_LIMIT,
    ensures
        r == spec_scaled(vel as int, dt as int),
        -STEP_LIMIT <= r <= STEP_LIMIT,
        vel >= 0 ==> r >= 0,
        vel < 0 ==> r <= 0,
{
    let mag: u64 = if vel >= 0 {
        vel as u64
    } else {
        (-vel) as u64
    };
    proof {
        assert(mag * (dt as u64) <= (VEL_LIMIT as u64) * (u32::MAX as u64)) by (nonlinear_arith)
            requires
                mag <= VEL_LIMIT as u64,
                dt as u64 <= u32::MAX as u64,
        ;
    }
    let prod: u64 = mag * (dt as u64);
    let step_mag: u64 = prod / 1000;
    if vel >= 0 {
        step_mag as i64
    } else {
        -(step_mag as i64)
    }
}

/// `v` held into `[-VEL_LIMIT, VEL_LIMIT]`, per [`spec_clamp_vel`].
fn clamp_vel(v: i64) -> (r: i64)
    ensures
        r == spec_clamp_vel(v as int),
{
    if v < -VEL_LIMIT {
        -VEL_LIMIT
    } else if v > VEL_LIMIT {
        VEL_LIMIT
    } else {
        v
    }
}

/// `v` held into `[-POS_LIMIT, POS_LIMIT]`.
fn clamp_pos(v: i64) -> (r: i64)
    ensures
        r == spec_clamp(v as int, -POS_LIMIT as int, POS_LIMIT as int),
{
    if v < -POS_LIMIT {
        -POS_LIMIT
    } else if v > POS_LIMIT {
        POS_LIMIT
    } else {
        v
    }
}

/// One paddle's motion in one tick, per [`spec_move_paddle`].
fn move_paddle_by(pos: i64, up: bool, down: bool, dt: u32) -> (r: i64)
    requires
        0 <= pos <= PADDLE_TOP_MAX,
    ensures
        r == spec_move_paddle(pos as int, up, down, dt as int),
        0 <= r <= PADDLE_TOP_MAX,
{
    let step: i64 = scaled_step(PADDLE_SPEED, dt);
    let mut p: i64 = pos;
    if up {
        p = p - step;
        if p < 0 {
            p = 0;
        }
    }
    if down {
        p = p + step;
        if p > PADDLE_TOP_MAX {
            p = PADDLE_TOP_MAX;
        }
    }
    p
}

impl GameState {
    /// Constructs the initial match state.
    pub fn new() -> (s: GameState)
        ensures
            s@ == spec_initial(),
            s@.wf(),
    {
        GameState {
            player1_pos: PADDLE_START,
            player2_pos: PADDLE_START,
            ball_pos_x: BALL_RESET_X,
            ball_pos_y: BALL_RESET_Y,
            ball_vel_x: -BALL_SPEED,
            ball_vel_y: 0,
            player1_score: 0,
            player2_score: 0,
        }
    }

    /// Tests the ball against each paddle in turn, left first, and bounces
    /// it off a paddle it overlaps while moving toward it: horizontal
    /// velocity reversed, a deflection added to the vertical velocity per
    /// [`spec_impact`]. The directional condition keeps a repeated call from
    /// reversing the ball again.
    pub fn resolve_paddle_collision(&mut self)
        requires
            old(self)@.wf(),
        ensures
            final(self)@ == spec_resolve_paddle_collision(old(self)@),
            final(self)@.wf(),
            spec_left_hit(old(self)@) ==> final(self)@.vx == -old(self)@.vx,
            spec_right_hit(old(self)@) ==> final(self)@.vx == -old(self)@.vx,
            !spec_left_hit(old(self)@) && !spec_right_hit(old(self)@) ==> *final(self) == *old(self),
    {
        if self.ball_pos_x <= PADDLE_LEFT_X + PADDLE_WIDTH
            && self.ball_pos_x + BALL_SIZE >= PADDLE_LEFT_X
            && self.ball_pos_y + BALL_SIZE >= self.player1_pos
            && self.ball_pos_y <= self.player1_pos + PADDLE_HEIGHT
            && self.ball_vel_x < 0
        {
            self.ball_vel_x = -self.ball_vel_x;
            let offset: i64 = self.ball_pos_y + BALL_HALF - (self.player1_pos + PADDLE_HALF);
            self.ball_vel_y = clamp_vel(self.ball_vel_y + offset * IMPACT_FACTOR);
        }
        if self.ball_pos_x + BALL_SIZE >= PADDLE_RIGHT_X
            && self.ball_pos_x <= PADDLE_RIGHT_X + PADDLE_WIDTH
            && self.ball_pos_y + BALL_SIZE >= self.player2_pos
            && self.ball_pos_y <= self.player2_pos + PADDLE_HEIGHT
            && self.ball_vel_x > 0
        {
            self.ball_vel_x = -self.ball_vel_x;
            let offset: i64 = self.ball_pos_y + BALL_HALF - (self.player2_pos + PADDLE_HALF);
            self.ball_vel_y = clamp_vel(self.ball_vel_y + offset * IMPACT_FACTOR);
        }
    }

    /// Moves each paddle by `PADDLE_SPEED` for each held intent over the
    /// elapsed `dt_ms`, clamping both into `[0, PADDLE_TOP_MAX]`. Whatever
    /// the elapsed time, both paddles end inside that range.
    pub fn apply_paddle_input(&mut self, input: InputState, dt_ms: u32)
        requires
            old(self)@.wf(),
        ensures
            final(self)@ == spec_apply_paddle_input(old(self)@, input, dt_ms as int),
            final(self)@.wf(),
            0 <= final(self)@.p1 <= PADDLE_TOP_MAX,
            0 <= final(self)@.p2 <= PADDLE_TOP_MAX,
    {
        self.player1_pos = move_paddle_by(self.player1_pos, input.p1_up, input.p1_down, dt_ms);
        self.player2_pos = move_paddle_by(self.player2_pos, input.p2_up, input.p2_down, dt_ms);
    }

    /// Puts the ball back for a serve, per [`spec_reset_ball`]: centered,
    /// horizontal velocity `BALL_SPEED` toward the given side, vertical
    /// velocity `ANGLE_SPEED * angle`.
    pub fn reset_ball(&mut self, to_right: bool, angle: i64)
        requires
            old(self)@.wf(),
            -ANGLE_UNIT <= angle <= ANGLE_UNIT,
        ensures
            final(self)@ == spec_reset_ball(old(self)@, to_right, angle as int),
            final(self)@.wf(),
    {
        self.ball_pos_x = BALL_RESET_X;
        self.ball_pos_y = BALL_RESET_Y;
        self.ball_vel_x = if to_right {
            BALL_SPEED
        } else {
            -BALL_SPEED
        };
        self.ball_vel_y = ANGLE_SPEED * angle;
    }

    /// Scores a ball that fully left the field on the previous tick and
    /// serves the next ball, per [`spec_update_score_and_reset`]: a point
    /// for the player opposite the boundary the ball passed, the other score
    /// untouched, and the serve directed toward that boundary's side. Leaves
    /// a ball within the boundaries alone. Scores never decrease.
    pub fn update_score_and_reset(&mut self, angle: i64)
        requires
            old(self)@.wf(),
            -ANGLE_UNIT <= angle <= ANGLE_UNIT,
        ensures
            final(self)@ == spec_update_score_and_reset(old(self)@, angle as int),
            final(self)@.wf(),
            old(self)@.bx < 0 ==> final(self)@.s2 == spec_bump(old(self)@.s2)
                && final(self)@.s1 == old(self)@.s1,
            old(self)@.bx > SCREEN_WIDTH ==> final(self)@.s1 == spec_bump(old(self)@.s1)
                && final(self)@.s2 == old(self)@.s2,
            old(self)@.bx < 0 || old(self)@.bx > SCREEN_WIDTH ==> final(self)@.bx == BALL_RESET_X
                && final(self)@.by == BALL_RESET_Y
                && (final(self)@.vx == BALL_SPEED || final(self)@.vx == -BALL_SPEED),
            0 <= old(self)@.bx <= SCREEN_WIDTH ==> *final(self) == *old(self),
            final(self)@.s1 >= old(self)@.s1,
            final(self)@.s2 >= old(self)@.s2,
    {
        if self.ball_pos_x < 0 {
            if self.player2_score < u32::MAX {
                self.player2_score = self.player2_score + 1;
            }
            self.reset_ball(true, angle);
        } else if self.ball_pos_x > SCREEN_WIDTH {
            if self.player1_score < u32::MAX {
                self.player1_score = self.player1_score + 1;
            }
            self.reset_ball(false, angle);
        }
    }

    /// Integrates the ball over `dt_ms`, per [`spec_advance_ball`], and
    /// reverses its vertical velocity exactly when its new bounding box
    /// touches or crosses the top or bottom boundary; the vertical velocity
    /// is unchanged otherwise.
    pub fn advance_ball(&mut self, dt_ms: u32)
        requires
            old(self)@.wf(),
        ensures
            final(self)@ == spec_advance_ball(old(self)@, dt_ms as int),
            final(self)@.wf(),
            spec_wall_crossed(final(self)@.by) ==> final(self)@.vy == -old(self)@.vy,
            !spec_wall_crossed(final(self)@.by) ==> final(self)@.vy == old(self)@.vy,
    {
        let sx: i64 = scaled_step(self.ball_vel_x, dt_ms);
        let sy: i64 = scaled_step(self.ball_vel_y, dt_ms);
        self.ball_pos_x = clamp_pos(self.ball_pos_x + sx);
        self.ball_pos_y = clamp_pos(self.ball_pos_y + sy);
        if self.ball_pos_y <= 0 || self.ball_pos_y + BALL_SIZE >= SCREEN_HEIGHT {
            self.ball_vel_y = -self.ball_vel_y;
        }
    }

    /// One full tick with the serve angle handed in, per [`spec_update`]:
    /// paddle hits and scoring from the previous tick's motion are resolved
    /// first, then paddle input and ball integration produce this tick's
    /// motion. The angle only matters on a tick that serves. Scores never
    /// decrease.
    pub fn update(&mut self, input: InputState, dt_ms: u32, serve_angle: i64)
        requires
            old(self)@.wf(),
            -ANGLE_UNIT <= serve_angle <= ANGLE_UNIT,
        ensures
            final(self)@ == spec_update(old(self)@, input, dt_ms as int, serve_angle as int),
            final(self)@.wf(),
            final(self)@.s1 >= old(self)@.s1,
            final(self)@.s2 >= old(self)@.s2,
    {
        self.resolve_paddle_collision();
        self.update_score_and_reset(serve_angle);
        self.apply_paddle_input(input, dt_ms);
        self.advance_ball(dt_ms);
    }

    /// One full tick with the serve angle drawn uniformly from
    /// `[-ANGLE_UNIT, ANGLE_UNIT]`, as a match plays it. Whatever the draw,
    /// the tick is [`spec_update`] at some angle in that range, the state
    /// stays well formed, and scores never decrease.
    pub fn tick(&mut self, input: InputState, dt_ms: u32)
        requires
            old(self)@.wf(),
        ensures
            exists|a: int|
                -ANGLE_UNIT <= a <= ANGLE_UNIT && final(self)@ == spec_update(
                    old(self)@,
                    input,
                    dt_ms as int,
                    a,
                ),
            final(self)@.wf(),
            final(self)@.s1 >= old(self)@.s1,
            final(self)@.s2 >= old(self)@.s2,
    {
        let angle: i64 = crate::rng::random_angle_unit();
        self.update(input, dt_ms, angle);
        proof {
            assert(-ANGLE_UNIT <= angle as int <= ANGLE_UNIT && self@ == spec_update(
                old(self)@,
                input,
                dt_ms as int,
                angle as int,
            ));
        }
    }

    /// Runtime check of the model invariant, for callers outside verified
    /// code that must establish it before handing a state in.
    pub fn is_well_formed(&self) -> (b: bool)
        ensures
            b == self@.wf(),
    {
        0 <= self.player1_pos && self.player1_pos <= PADDLE_TOP_MAX
            && 0 <= self.player2_pos && self.player2_pos <= PADDLE_TOP_MAX
            && -POS_LIMIT <= self.ball_pos_x && self.ball_pos_x <= POS_LIMIT
            && -POS_LIMIT <= self.ball_pos_y && self.ball_pos_y <= POS_LIMIT
            && (self.ball_vel_x == BALL_SPEED || self.ball_vel_x == -BALL_SPEED)
            && -VEL_LIMIT <= self.ball_vel_y && self.ball_vel_y <= VEL_LIMIT
    }
}

} // verus!
