use pong::game::{FrameInput, GameState, Vel};
use pong::geom::Rect;
use pong::predict::fold_prediction;

fn idle() -> FrameInput {
    FrameInput {
        top_neg: false,
        top_pos: false,
        bottom_neg: false,
        bottom_pos: false,
        toggle_ai: false,
    }
}

fn standard_state() -> GameState {
    GameState::new(800, 600)
}

#[test]
fn new_game_layout() {
    let s = standard_state();
    assert_eq!((s.top_paddle.x, s.top_paddle.y, s.top_paddle.w, s.top_paddle.h), (400, 10, 200, 10));
    assert_eq!(
        (s.bottom_paddle.x, s.bottom_paddle.y, s.bottom_paddle.w, s.bottom_paddle.h),
        (400, 570, 200, 10)
    );
    assert_eq!((s.ball.x, s.ball.y, s.ball.w, s.ball.h), (400, 300, 10, 10));
    assert_eq!((s.ball_vel.x, s.ball_vel.y), (2, 5));
    assert_eq!((s.top_score, s.bottom_score), (0, 0));
    assert_eq!(s.ai_prediction, None);
}

#[test]
fn overlap_is_inclusive_of_touching_edges() {
    let a = Rect { x: 0, y: 0, w: 10, h: 10 };
    let touching = Rect { x: 10, y: 0, w: 10, h: 10 };
    let apart = Rect { x: 11, y: 0, w: 10, h: 10 };
    assert!(a.overlaps(&touching));
    assert!(!a.overlaps(&apart));
}

#[test]
fn ball_moves_by_velocity_each_frame() {
    let mut s = standard_state();
    s.ball = Rect { x: 100, y: 100, w: 10, h: 10 };
    s.update(&idle(), 800, 600);
    assert_eq!((s.ball.x, s.ball.y), (102, 105));
    assert_eq!((s.ball_vel.x, s.ball_vel.y), (2, 5));
}

#[test]
fn dual_paddle_overlap_flips_velocity_once() {
    let mut s = standard_state();
    s.top_paddle = Rect { x: 90, y: 90, w: 50, h: 30 };
    s.bottom_paddle = Rect { x: 80, y: 100, w: 60, h: 30 };
    s.ball = Rect { x: 100, y: 100, w: 10, h: 10 };
    s.ball_vel = Vel { x: 1, y: 3 };
    s.update(&idle(), 800, 600);
    assert_eq!(s.ball_vel.y, -3);
}

#[test]
fn fold_in_range_is_a_no_op() {
    assert_eq!(fold_prediction(132, 800), 132);
    assert_eq!(fold_prediction(0, 800), 0);
}

#[test]
fn fold_reflects_off_right_wall() {
    assert_eq!(fold_prediction(900, 800), 700);
}

#[test]
fn fold_reflects_off_left_wall() {
    assert_eq!(fold_prediction(-50, 800), 50);
}

#[test]
fn fold_reflects_repeatedly() {
    // 1650 -> 2*800 - 1650 = -50 -> 50
    assert_eq!(fold_prediction(1650, 800), 50);
}

#[test]
fn fold_peaks_at_the_width_itself() {
    // a raw value congruent to the width modulo 2*width has no image in
    // [0, width); the fold maps it to the width
    assert_eq!(fold_prediction(800, 800), 800);
}

#[test]
fn reset_centers_ball_and_reverses_velocity() {
    let mut s = standard_state();
    s.ball = Rect { x: 123, y: 456, w: 10, h: 10 };
    s.top_score = 3;
    s.bottom_score = 4;
    s.reset_ball(800, 600);
    assert_eq!((s.ball.x, s.ball.y), (400, 300));
    assert_eq!((s.ball_vel.x, s.ball_vel.y), (-2, -5));
    assert_eq!((s.top_score, s.bottom_score), (3, 4));
    assert_eq!(s.ai_prediction, None);
}

#[test]
fn reset_recomputes_an_enabled_prediction() {
    let mut s = standard_state();
    s.ai_prediction = Some(0);
    s.reset_ball(800, 600);
    // after the reset: ball (400, 300), velocity (-2, -5);
    // y_dist = 300 - 20 = 280; t = 56; raw = 400 - 112 = 288
    assert_eq!(s.ai_prediction, Some(288));
}

#[test]
fn ball_crossing_top_scores_for_bottom() {
    let mut s = standard_state();
    s.ball = Rect { x: 400, y: 3, w: 10, h: 10 };
    s.ball_vel = Vel { x: 2, y: -5 };
    s.update(&idle(), 800, 600);
    assert_eq!(s.bottom_score, 1);
    assert_eq!(s.top_score, 0);
    assert_eq!((s.ball.x, s.ball.y), (400, 300));
    assert_eq!((s.ball_vel.x, s.ball_vel.y), (-2, 5));
}

#[test]
fn ball_crossing_bottom_scores_for_top() {
    let mut s = standard_state();
    s.ball = Rect { x: 200, y: 587, w: 10, h: 10 };
    s.ball_vel = Vel { x: 3, y: 5 };
    // keep the ball clear of the bottom paddle so nothing bounces first
    s.bottom_paddle.x = 600;
    s.update(&idle(), 800, 600);
    assert_eq!(s.top_score, 1);
    assert_eq!(s.bottom_score, 0);
    assert_eq!((s.ball.x, s.ball.y), (400, 300));
    assert_eq!((s.ball_vel.x, s.ball_vel.y), (-3, -5));
}

#[test]
fn wall_crossing_flips_horizontal_velocity() {
    let mut s = standard_state();
    s.ball = Rect { x: 3, y: 300, w: 10, h: 10 };
    s.ball_vel = Vel { x: -5, y: 2 };
    s.update(&idle(), 800, 600);
    assert_eq!((s.ball.x, s.ball.y), (-2, 302));
    assert_eq!(s.ball_vel.x, 5);

    let mut r = standard_state();
    r.ball = Rect { x: 787, y: 300, w: 10, h: 10 };
    r.ball_vel = Vel { x: 5, y: 2 };
    r.update(&idle(), 800, 600);
    assert_eq!((r.ball.x, r.ball.y), (792, 302));
    assert_eq!(r.ball_vel.x, -5);
}

#[test]
fn toggle_enables_then_disables_the_opponent() {
    let mut s = standard_state();
    s.ball = Rect { x: 100, y: 100, w: 10, h: 10 };
    let toggle = FrameInput { toggle_ai: true, ..idle() };
    s.update(&toggle, 800, 600);
    // y_dist = 100 - 20 = 80; t = 16; raw = 100 + 32 = 132, already in range
    assert_eq!(s.ai_prediction, Some(132));
    s.update(&toggle, 800, 600);
    assert_eq!(s.ai_prediction, None);
}

#[test]
fn prediction_value_is_the_folded_projection() {
    let mut s = standard_state();
    s.ball = Rect { x: 700, y: 100, w: 10, h: 10 };
    s.ball_vel = Vel { x: 10, y: 5 };
    // y_dist = 80; t = 16; raw = 700 + 160 = 860 -> folded to 740
    assert_eq!(s.get_prediction(800), 740);
}

#[test]
fn enabled_opponent_steps_toward_target_at_most_paddle_speed() {
    let mut s = standard_state();
    s.top_paddle.x = 300;
    s.ai_prediction = Some(700);
    s.update(&idle(), 800, 600);
    // delta = 700 - 300 - 100 = 300, capped at +5
    assert_eq!(s.top_paddle.x, 305);

    let mut near = standard_state();
    near.top_paddle.x = 300;
    near.ai_prediction = Some(401);
    near.update(&idle(), 800, 600);
    // delta = 401 - 300 - 100 = 1: no cap
    assert_eq!(near.top_paddle.x, 301);

    let mut centered = standard_state();
    centered.top_paddle.x = 300;
    centered.ai_prediction = Some(400);
    centered.update(&idle(), 800, 600);
    assert_eq!(centered.top_paddle.x, 300);
}

#[test]
fn bottom_paddle_bounce_refreshes_an_enabled_prediction() {
    let mut s = standard_state();
    s.ball = Rect { x: 400, y: 562, w: 10, h: 10 };
    s.ball_vel = Vel { x: 2, y: 5 };
    s.ai_prediction = Some(0);
    s.update(&idle(), 800, 600);
    // integrated ball (402, 567) overlaps the bottom paddle; velocity flips
    // to (2, -5); y_dist = 567 - 20 = 547; t = 109; raw = 402 + 218 = 620
    assert_eq!(s.ball_vel.y, -5);
    assert_eq!(s.ai_prediction, Some(620));
}

#[test]
fn holding_positive_key_moves_top_paddle_linearly() {
    let mut s = standard_state();
    let x0 = s.top_paddle.x;
    let y0 = s.top_paddle.y;
    let held = FrameInput { top_pos: true, ..idle() };
    for _ in 0..10 {
        s.update(&held, 800, 600);
    }
    assert_eq!(s.top_paddle.x, x0 + 50);
    assert_eq!(s.top_paddle.y, y0);
}

#[test]
fn both_direction_keys_cancel_out() {
    let mut s = standard_state();
    let x0 = s.bottom_paddle.x;
    let both = FrameInput { bottom_neg: true, bottom_pos: true, ..idle() };
    s.update(&both, 800, 600);
    assert_eq!(s.bottom_paddle.x, x0);
}

#[test]
fn ready_for_update_accepts_a_fresh_game() {
    let s = standard_state();
    assert!(s.ready_for_update(800, 600));
    assert!(!s.ready_for_update(0, 600));
    let mut bad = standard_state();
    bad.ball_vel = Vel { x: 0, y: 5 };
    assert!(!bad.ready_for_update(800, 600));
}
