use pong::GameState;
use pong::InputState;
use pong::sim::BALL_RESET_X;
use pong::sim::BALL_RESET_Y;
use pong::sim::BALL_SPEED;
use pong::sim::PADDLE_START;
use pong::sim::PADDLE_TOP_MAX;
use pong::sim::POS_LIMIT;
use pong::sim::VEL_LIMIT;

fn idle() -> InputState {
    InputState { p1_up: false, p1_down: false, p2_up: false, p2_down: false }
}

#[test]
fn new_state_is_centered_and_serves_left() {
    let s = GameState::new();
    assert_eq!(s.player1_pos, PADDLE_START);
    assert_eq!(s.player2_pos, PADDLE_START);
    assert_eq!(s.ball_pos_x, BALL_RESET_X);
    assert_eq!(s.ball_pos_y, BALL_RESET_Y);
    assert_eq!(s.ball_vel_x, -BALL_SPEED);
    assert_eq!(s.ball_vel_y, 0);
    assert_eq!(s.player1_score, 0);
    assert_eq!(s.player2_score, 0);
    assert!(s.is_well_formed());
}

#[test]
fn paddle_moves_by_speed_times_dt() {
    let mut s = GameState::new();
    let input = InputState { p1_up: false, p1_down: true, p2_up: true, p2_down: false };
    s.apply_paddle_input(input, 16);
    // 425_000 subpixels per second over 16 ms is 6_800 subpixels.
    assert_eq!(s.player1_pos, PADDLE_START + 6_800);
    assert_eq!(s.player2_pos, PADDLE_START - 6_800);
}

#[test]
fn paddles_stay_in_range_however_large_dt_is() {
    let mut s = GameState::new();
    let up_both = InputState { p1_up: true, p1_down: false, p2_up: true, p2_down: false };
    s.apply_paddle_input(up_both, u32::MAX);
    assert_eq!(s.player1_pos, 0);
    assert_eq!(s.player2_pos, 0);

    let down_both = InputState { p1_up: false, p1_down: true, p2_up: false, p2_down: true };
    s.apply_paddle_input(down_both, u32::MAX);
    assert_eq!(s.player1_pos, PADDLE_TOP_MAX);
    assert_eq!(s.player2_pos, PADDLE_TOP_MAX);

    // Both intents held: up is applied first, then down, each clamped.
    let all = InputState { p1_up: true, p1_down: true, p2_up: true, p2_down: true };
    s.apply_paddle_input(all, u32::MAX);
    assert_eq!(s.player1_pos, PADDLE_TOP_MAX);
    assert!(s.is_well_formed());
}

#[test]
fn ball_advances_by_velocity_times_dt() {
    let mut s = GameState::new();
    s.ball_vel_y = 50_000;
    s.advance_ball(100);
    assert_eq!(s.ball_pos_x, BALL_RESET_X - 30_000);
    assert_eq!(s.ball_pos_y, BALL_RESET_Y + 5_000);
    // No wall touched: vertical velocity unchanged.
    assert_eq!(s.ball_vel_y, 50_000);
}

#[test]
fn wall_contact_flips_vertical_velocity_once() {
    let mut s = GameState::new();
    s.ball_pos_y = 1_000;
    s.ball_vel_y = -100_000;
    s.advance_ball(100);
    assert_eq!(s.ball_pos_y, -9_000);
    assert_eq!(s.ball_vel_y, 100_000);

    // Bottom wall, by symmetry.
    let mut t = GameState::new();
    t.ball_pos_y = 585_000;
    t.ball_vel_y = 100_000;
    t.advance_ball(100);
    assert_eq!(t.ball_pos_y, 595_000);
    assert_eq!(t.ball_vel_y, -100_000);
}

#[test]
fn left_paddle_reflects_incoming_ball() {
    let mut s = GameState::new();
    s.ball_pos_x = 35_000;
    s.ball_pos_y = 295_000; // ball center exactly at the paddle center
    assert_eq!(s.ball_vel_x, -BALL_SPEED);
    s.resolve_paddle_collision();
    assert_eq!(s.ball_vel_x, BALL_SPEED);
    assert_eq!(s.ball_vel_y, 0); // centered hit: no deflection
}

#[test]
fn off_center_hit_deflects_by_offset_times_factor() {
    let mut s = GameState::new();
    s.ball_pos_x = 35_000;
    s.ball_pos_y = 330_000; // ball center 35_000 below the paddle center
    s.resolve_paddle_collision();
    assert_eq!(s.ball_vel_x, BALL_SPEED);
    assert_eq!(s.ball_vel_y, 35_000 * 3);
}

#[test]
fn right_paddle_reflects_incoming_ball() {
    let mut s = GameState::new();
    s.ball_pos_x = 745_000;
    s.ball_pos_y = 295_000;
    s.ball_vel_x = BALL_SPEED;
    s.resolve_paddle_collision();
    assert_eq!(s.ball_vel_x, -BALL_SPEED);
    assert_eq!(s.ball_vel_y, 0);
}

#[test]
fn ball_moving_away_is_not_bounced() {
    let mut s = GameState::new();
    s.ball_pos_x = 35_000;
    s.ball_pos_y = 295_000;
    s.ball_vel_x = BALL_SPEED; // overlapping the left paddle but moving right
    s.resolve_paddle_collision();
    assert_eq!(s.ball_vel_x, BALL_SPEED);
}

#[test]
fn resolver_is_idempotent() {
    let mut s = GameState::new();
    s.ball_pos_x = 35_000;
    s.ball_pos_y = 330_000;
    s.resolve_paddle_collision();
    let once = s;
    s.resolve_paddle_collision();
    assert_eq!(s, once);
}

#[test]
fn left_exit_scores_right_player_and_recenters() {
    let mut s = GameState::new();
    s.ball_pos_x = -5_000;
    s.update_score_and_reset(500);
    assert_eq!(s.player2_score, 1);
    assert_eq!(s.player1_score, 0);
    assert_eq!(s.ball_pos_x, BALL_RESET_X);
    assert_eq!(s.ball_pos_y, BALL_RESET_Y);
    assert_eq!(s.ball_vel_x, BALL_SPEED); // serves toward the side the ball left by
    assert_eq!(s.ball_vel_y, 150_000); // 300 per unit of serve angle
}

#[test]
fn right_exit_scores_left_player_and_recenters() {
    let mut s = GameState::new();
    s.ball_pos_x = 805_000;
    s.ball_vel_x = BALL_SPEED;
    s.update_score_and_reset(-750);
    assert_eq!(s.player1_score, 1);
    assert_eq!(s.player2_score, 0);
    assert_eq!(s.ball_pos_x, BALL_RESET_X);
    assert_eq!(s.ball_vel_x, -BALL_SPEED);
    assert_eq!(s.ball_vel_y, -225_000);
}

#[test]
fn ball_on_the_boundary_is_not_scored() {
    let mut s = GameState::new();
    s.ball_pos_x = 0;
    s.update_score_and_reset(0);
    assert_eq!(s.player1_score, 0);
    assert_eq!(s.player2_score, 0);
    assert_eq!(s.ball_pos_x, 0);

    s.ball_pos_x = 800_000;
    s.update_score_and_reset(0);
    assert_eq!(s.player1_score, 0);
    assert_eq!(s.player2_score, 0);
    assert_eq!(s.ball_pos_x, 800_000);
}

#[test]
fn score_counter_stops_at_its_cap() {
    let mut s = GameState::new();
    s.ball_pos_x = -5_000;
    s.player2_score = u32::MAX;
    s.update_score_and_reset(0);
    assert_eq!(s.player2_score, u32::MAX);
    assert_eq!(s.player1_score, 0);
}

#[test]
fn scenario_exit_left_then_one_more_tick() {
    let mut s = GameState::new();
    // Ball centered, moving left at 300 pixels per second; two seconds take
    // it fully past the left boundary.
    s.update(idle(), 2000, 0);
    assert_eq!(s.ball_pos_x, BALL_RESET_X - 600_000);
    assert_eq!(s.player1_score, 0);
    assert_eq!(s.player2_score, 0);
    // The exit is detected at the start of the next tick.
    s.update(idle(), 0, 0);
    assert_eq!(s.player2_score, 1);
    assert_eq!(s.player1_score, 0);
    assert_eq!(s.ball_pos_x, BALL_RESET_X);
    assert_eq!(s.ball_pos_y, BALL_RESET_Y);
    assert_eq!(s.ball_vel_x, BALL_SPEED);
}

#[test]
fn tick_serves_with_a_drawn_angle() {
    let mut s = GameState::new();
    s.ball_pos_x = -5_000;
    s.tick(idle(), 0);
    assert_eq!(s.player2_score, 1);
    assert_eq!(s.ball_pos_x, BALL_RESET_X);
    assert_eq!(s.ball_vel_x, BALL_SPEED);
    assert!(s.ball_vel_y >= -BALL_SPEED && s.ball_vel_y <= BALL_SPEED);
    assert!(s.is_well_formed());
}

#[test]
fn scores_never_decrease_over_many_ticks() {
    let mut s = GameState::new();
    let mut last = (0u32, 0u32);
    for i in 0..200u32 {
        let input = InputState {
            p1_up: i % 3 == 0,
            p1_down: i % 5 == 0,
            p2_up: i % 2 == 0,
            p2_down: i % 7 == 0,
        };
        s.tick(input, 16 + (i % 50));
        assert!(s.player1_score >= last.0);
        assert!(s.player2_score >= last.1);
        assert!(s.is_well_formed());
        last = (s.player1_score, s.player2_score);
    }
}

#[test]
fn coordinates_stop_at_their_cap() {
    let mut s = GameState::new();
    s.ball_pos_y = POS_LIMIT;
    s.ball_vel_y = VEL_LIMIT;
    s.advance_ball(u32::MAX);
    assert_eq!(s.ball_pos_y, POS_LIMIT);
    assert!(s.is_well_formed());
}

#[test]
fn well_formedness_check_rejects_a_bad_state() {
    let mut s = GameState::new();
    assert!(s.is_well_formed());
    s.ball_vel_x = 1; // horizontal speed must be BALL_SPEED one way or the other
    assert!(!s.is_well_formed());
}
