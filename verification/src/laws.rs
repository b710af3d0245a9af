//! General laws of the simulation, proved against the frame transition.

use vstd::prelude::*;
use crate::game::{
    FrameInput, GameModel, PADDLE_SPEED, ai_step, integrate_ball, move_paddles, paddle_bounce,
    prediction_model, refresh_prediction, reset_model, settle_scores, step, wall_bounce,
};
use crate::predict::lemma_fold_bounds;
use vstd::math::abs;

verus! {

/// Law: in a frame where no score falls, the ball's position after the step
/// is exactly its position before plus the velocity in effect at the start
/// of the frame; bounces in the same frame only flip the velocity that the
/// next frame will use.
pub proof fn lemma_ball_integration(g: GameModel, inp: FrameInput, w: int, h: int)
    requires
        g.ball.y + g.ball_vel.y > 0,
        g.ball.y + g.ball_vel.y + g.ball.h < h,
    ensures
        step(g, inp, w, h).ball.x == g.ball.x + g.ball_vel.x,
        step(g, inp, w, h).ball.y == g.ball.y + g.ball_vel.y,
{
    let g1 = move_paddles(g, inp);
    let g2 = ai_step(g1, inp.toggle_ai, w);
    let g3 = integrate_ball(g2);
    let g4 = paddle_bounce(g3);
    let g5 = refresh_prediction(g4, w);
    let g6 = wall_bounce(g5, w);
    assert(g6.ball == g3.ball);
    assert(step(g, inp, w, h) == settle_scores(g6, w, h));
}

/// Law: overlapping both paddles in one frame flips the vertical velocity
/// exactly once — the two overlap tests share a single OR, so a dual
/// overlap does not flip twice.
pub proof fn lemma_single_flip(g: GameModel)
    requires
        g.ball.overlaps(g.bottom_paddle),
        g.ball.overlaps(g.top_paddle),
    ensures
        paddle_bounce(g).ball_vel.y == -g.ball_vel.y,
{
}

/// Law: a reset places the ball at exactly the surface midpoint, inverts
/// both velocity components, and leaves both scores alone.
pub proof fn lemma_reset_centers_and_reverses(g: GameModel, w: int, h: int)
    ensures
        reset_model(g, w, h).ball.x == w / 2,
        reset_model(g, w, h).ball.y == h / 2,
        reset_model(g, w, h).ball_vel.x == -g.ball_vel.x,
        reset_model(g, w, h).ball_vel.y == -g.ball_vel.y,
        reset_model(g, w, h).top_score == g.top_score,
        reset_model(g, w, h).bottom_score == g.bottom_score,
{
}

/// Law: a prediction never leaves the surface (the fold can reach the width
/// itself, but nothing beyond it on either side).
pub proof fn lemma_prediction_on_surface(g: GameModel, w: int)
    requires
        w >= 1,
    ensures
        0 <= prediction_model(g, w) <= w,
{
    let y_dist = g.ball.top() - g.top_paddle.bottom();
    let t = abs(y_dist) / abs(g.ball_vel.y);
    let raw = g.ball.x + g.ball_vel.x * t;
    lemma_fold_bounds(raw, w);
}

/// One frame with the opponent disabled and the toggle unpressed keeps it
/// disabled and moves the top paddle exactly as the held keys say.
proof fn lemma_step_top_paddle_manual(g: GameModel, inp: FrameInput, w: int, h: int)
    requires
        g.ai_prediction is None,
        !inp.toggle_ai,
    ensures
        step(g, inp, w, h).ai_prediction is None,
        step(g, inp, w, h).top_paddle.x == g.top_paddle.x + (if inp.top_neg {
            -(PADDLE_SPEED as int)
        } else {
            0
        }) + (if inp.top_pos {
            PADDLE_SPEED as int
        } else {
            0
        }),
        step(g, inp, w, h).top_paddle.y == g.top_paddle.y,
{
    let g1 = move_paddles(g, inp);
    let g2 = ai_step(g1, inp.toggle_ai, w);
    let g3 = integrate_ball(g2);
    let g4 = paddle_bounce(g3);
    let g5 = refresh_prediction(g4, w);
    let g6 = wall_bounce(g5, w);
    assert(g6.top_paddle == g1.top_paddle);
    assert(step(g, inp, w, h) == settle_scores(g6, w, h));
}

/// The same frame repeated `n` times.
pub open spec fn iterate_step(g: GameModel, inp: FrameInput, w: int, h: int, n: nat) -> GameModel
    decreases n,
{
    if n == 0 {
        g
    } else {
        step(iterate_step(g, inp, w, h, (n - 1) as nat), inp, w, h)
    }
}

/// Law: with the opponent disabled, holding only the top paddle's positive
/// key for `n` frames moves that paddle exactly `n` paddle-speeds in x and
/// never vertically.
pub proof fn lemma_hold_positive(g: GameModel, inp: FrameInput, w: int, h: int, n: nat)
    requires
        g.ai_prediction is None,
        inp.top_pos,
        !inp.top_neg,
        !inp.toggle_ai,
    ensures
        iterate_step(g, inp, w, h, n).top_paddle.x == g.top_paddle.x + n * (PADDLE_SPEED as int),
        iterate_step(g, inp, w, h, n).top_paddle.y == g.top_paddle.y,
        iterate_step(g, inp, w, h, n).ai_prediction is None,
    decreases n,
{
    if n > 0 {
        let prev = iterate_step(g, inp, w, h, (n - 1) as nat);
        lemma_hold_positive(g, inp, w, h, (n - 1) as nat);
        lemma_step_top_paddle_manual(prev, inp, w, h);
    }
}

} // verus!
