//! Laws of the simulator, proved over the model in [`crate::sim`].

use vstd::prelude::*;
use crate::sim::spec_apply_paddle_input;
use crate::sim::spec_advance_ball;
use crate::sim::spec_resolve_paddle_collision;
use crate::sim::spec_update_score_and_reset;
use crate::sim::spec_update;
use crate::sim::spec_wall_crossed;
use crate::sim::spec_left_hit;
use crate::sim::spec_right_hit;
use crate::sim::InputState;
use crate::sim::MatchV;
use crate::sim::BALL_RESET_X;
use crate::sim::BALL_RESET_Y;
use crate::sim::BALL_SPEED;
use crate::sim::PADDLE_TOP_MAX;
use crate::sim::SCREEN_WIDTH;

verus! {

/// Paddle input keeps both paddles within `[0, PADDLE_TOP_MAX]`, whatever
/// the intents and however much time the tick covers.
pub proof fn lemma_paddle_input_in_range(v: MatchV, input: InputState, dt: int)
    requires
        v.wf(),
        dt >= 0,
    ensures
        0 <= spec_apply_paddle_input(v, input, dt).p1 <= PADDLE_TOP_MAX,
        0 <= spec_apply_paddle_input(v, input, dt).p2 <= PADDLE_TOP_MAX,
{
}

/// Integrating the ball reverses the vertical velocity exactly when the new
/// bounding box touches or crosses the top or bottom boundary, and keeps it
/// otherwise.
pub proof fn lemma_wall_bounce(v: MatchV, dt: int)
    ensures
        spec_wall_crossed(spec_advance_ball(v, dt).by) ==> spec_advance_ball(v, dt).vy == -v.vy,
        !spec_wall_crossed(spec_advance_ball(v, dt).by) ==> spec_advance_ball(v, dt).vy == v.vy,
{
}

/// A ball that overlaps the left paddle while moving leftward comes out of
/// collision resolution with its horizontal velocity exactly reversed: in at
/// `-s`, out at `s`.
pub proof fn lemma_left_hit_reflects(v: MatchV)
    requires
        spec_left_hit(v),
    ensures
        spec_resolve_paddle_collision(v).vx == -v.vx,
{
}

/// The mirror image: a ball that overlaps the right paddle while moving
/// rightward comes out with its horizontal velocity exactly reversed.
pub proof fn lemma_right_hit_reflects(v: MatchV)
    requires
        spec_right_hit(v),
    ensures
        spec_resolve_paddle_collision(v).vx == -v.vx,
{
}

/// Collision resolution is idempotent: resolving an already-resolved state
/// changes nothing, because a bounced ball no longer moves toward the paddle
/// it bounced off.
pub proof fn lemma_resolver_idempotent(v: MatchV)
    ensures
        spec_resolve_paddle_collision(spec_resolve_paddle_collision(v))
            == spec_resolve_paddle_collision(v),
{
}

/// A tick that scores puts the ball back at the exact center of the screen,
/// with the horizontal velocity's magnitude exactly `BALL_SPEED`.
pub proof fn lemma_reset_centers(v: MatchV, angle: int)
    requires
        v.bx < 0 || v.bx > SCREEN_WIDTH,
    ensures
        spec_update_score_and_reset(v, angle).bx == BALL_RESET_X,
        spec_update_score_and_reset(v, angle).by == BALL_RESET_Y,
        spec_update_score_and_reset(v, angle).vx == BALL_SPEED
            || spec_update_score_and_reset(v, angle).vx == -BALL_SPEED,
{
}

/// A ball past the left boundary is one point for the right player and none
/// for the left (stated below the score counter's cap, which play never
/// reaches).
pub proof fn lemma_left_exit_scores_right(v: MatchV, angle: int)
    requires
        v.bx < 0,
        v.s2 < u32::MAX,
    ensures
        spec_update_score_and_reset(v, angle).s2 == v.s2 + 1,
        spec_update_score_and_reset(v, angle).s1 == v.s1,
{
}

/// The mirror image: a ball past the right boundary is one point for the
/// left player and none for the right.
pub proof fn lemma_right_exit_scores_left(v: MatchV, angle: int)
    requires
        v.bx > SCREEN_WIDTH,
        v.s1 < u32::MAX,
    ensures
        spec_update_score_and_reset(v, angle).s1 == v.s1 + 1,
        spec_update_score_and_reset(v, angle).s2 == v.s2,
{
}

/// One tick of a match, for stating laws over whole histories.
pub struct TickV {
    /// The movement intents the tick saw.
    pub input: InputState,
    /// The elapsed time, milliseconds.
    pub dt: int,
    /// The serve angle a reset would use.
    pub angle: int,
}

/// A run of the simulator: the state after every tick of `ticks`, in order.
pub open spec fn spec_run(v: MatchV, ticks: Seq<TickV>) -> MatchV
    decreases ticks.len(),
{
    if ticks.len() == 0 {
        v
    } else {
        spec_run(spec_update(v, ticks[0].input, ticks[0].dt, ticks[0].angle), ticks.drop_first())
    }
}

/// No single tick lowers either score.
pub proof fn lemma_scores_monotone_tick(v: MatchV, input: InputState, dt: int, angle: int)
    ensures
        spec_update(v, input, dt, angle).s1 >= v.s1,
        spec_update(v, input, dt, angle).s2 >= v.s2,
{
}

/// Scores never decrease over any sequence of ticks.
pub proof fn lemma_scores_monotone_run(v: MatchV, ticks: Seq<TickV>)
    ensures
        spec_run(v, ticks).s1 >= v.s1,
        spec_run(v, ticks).s2 >= v.s2,
    decreases ticks.len(),
{
    if ticks.len() > 0 {
        let w = spec_update(v, ticks[0].input, ticks[0].dt, ticks[0].angle);
        lemma_scores_monotone_tick(v, ticks[0].input, ticks[0].dt, ticks[0].angle);
        lemma_scores_monotone_run(w, ticks.drop_first());
    }
}

} // verus!

