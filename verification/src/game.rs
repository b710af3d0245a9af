//! The per-frame simulation step: paddle movement, the automated opponent,
//! ball integration, collision response, scoring, and the ball reset.

use vstd::prelude::*;
use vstd::math::abs;
use crate::geom::Rect;
use crate::geom::RectModel;
use crate::predict::fold_prediction;
use crate::predict::fold_raw;

verus! {

/// Horizontal distance a paddle covers in one frame, manual or automated.
pub const PADDLE_SPEED: i64 = 5;

/// Largest surface dimension the simulation accepts.
pub const DIM_BOUND: i64 = 0x10_0000;

/// Largest velocity component magnitude the simulation accepts.
pub const VEL_BOUND: i64 = 0x10_0000;

/// Coordinate headroom a state must keep before a frame starts.
pub const COORD_BOUND: i64 = 0x1_0000_0000;

/// Coordinate range that intermediate values stay inside during one frame.
pub const COORD_SLACK: i64 = 0x2_0000_0000;

/// Headroom kept below the score counters' machine limit.
pub const SCORE_BOUND: u64 = 0x1000_0000_0000_0000;

/// Mathematical model of a velocity vector.
pub struct VelModel {
    pub x: int,
    pub y: int,
}

/// Mathematical model of the whole game state.
pub struct GameModel {
    pub top_paddle: RectModel,
    pub bottom_paddle: RectModel,
    pub ball: RectModel,
    pub ball_vel: VelModel,
    pub top_score: int,
    pub bottom_score: int,
    pub ai_prediction: Option<int>,
}

/// Held-key state for one frame: one negative and one positive direction per
/// paddle, plus the edge-triggered key that toggles the automated opponent.
#[derive(Clone, Copy)]
pub struct FrameInput {
    pub top_neg: bool,
    pub top_pos: bool,
    pub bottom_neg: bool,
    pub bottom_pos: bool,
    pub toggle_ai: bool,
}

/// 2D velocity in integer units per frame.
#[derive(Clone, Copy)]
pub struct Vel {
    pub x: i64,
    pub y: i64,
}

impl View for Vel {
    type V = VelModel;

    open spec fn view(&self) -> VelModel {
        VelModel { x: self.x as int, y: self.y as int }
    }
}

/// The whole game state: two paddles, the ball with its velocity, two score
/// counters, and the automated opponent's optional target.
#[derive(Clone, Copy)]
pub struct GameState {
    pub top_paddle: Rect,
    pub bottom_paddle: Rect,
    pub ball: Rect,
    pub ball_vel: Vel,
    pub top_score: u64,
    pub bottom_score: u64,
    pub ai_prediction: Option<i64>,
}

impl View for GameState {
    type V = GameModel;

    open spec fn view(&self) -> GameModel {
        GameModel {
            top_paddle: self.top_paddle@,
            bottom_paddle: self.bottom_paddle@,
            ball: self.ball@,
            ball_vel: self.ball_vel@,
            top_score: self.top_score as int,
            bottom_score: self.bottom_score as int,
            ai_prediction: match self.ai_prediction {
                Some(p) => Some(p as int),
                None => None,
            },
        }
    }
}

/// Game invariant: velocity components are never zero (the sign-flip bounce
/// assumes a nonzero magnitude) and stay bounded, and sizes are non-negative.
pub open spec fn wf(g: GameModel) -> bool {
    &&& g.ball_vel.x != 0
    &&& g.ball_vel.y != 0
    &&& -VEL_BOUND <= g.ball_vel.x <= VEL_BOUND
    &&& -VEL_BOUND <= g.ball_vel.y <= VEL_BOUND
    &&& 0 <= g.top_paddle.w <= DIM_BOUND
    &&& 0 <= g.top_paddle.h <= DIM_BOUND
    &&& 0 <= g.bottom_paddle.w <= DIM_BOUND
    &&& 0 <= g.bottom_paddle.h <= DIM_BOUND
    &&& 0 <= g.ball.w <= DIM_BOUND
    &&& 0 <= g.ball.h <= DIM_BOUND
}

/// Machine-limit headroom: every coordinate, score and stored prediction is
/// far enough from its integer type's range that one frame cannot overflow.
pub open spec fn in_bounds(g: GameModel) -> bool {
    &&& -COORD_BOUND <= g.top_paddle.x <= COORD_BOUND
    &&& -COORD_BOUND <= g.top_paddle.y <= COORD_BOUND
    &&& -COORD_BOUND <= g.bottom_paddle.x <= COORD_BOUND
    &&& -COORD_BOUND <= g.bottom_paddle.y <= COORD_BOUND
    &&& -COORD_BOUND <= g.ball.x <= COORD_BOUND
    &&& -COORD_BOUND <= g.ball.y <= COORD_BOUND
    &&& 0 <= g.top_score < SCORE_BOUND
    &&& 0 <= g.bottom_score < SCORE_BOUND
    &&& (g.ai_prediction is Some ==> -COORD_BOUND <= g.ai_prediction->0 <= COORD_BOUND)
}

/// What the trajectory prediction needs of a state: a nonzero, bounded
/// vertical velocity and coordinates inside the one-frame slack zone.
pub open spec fn prediction_safe(g: GameModel) -> bool {
    &&& g.ball_vel.y != 0
    &&& -VEL_BOUND <= g.ball_vel.x <= VEL_BOUND
    &&& -VEL_BOUND <= g.ball_vel.y <= VEL_BOUND
    &&& -COORD_SLACK <= g.ball.x <= COORD_SLACK
    &&& -COORD_SLACK <= g.ball.y <= COORD_SLACK
    &&& -COORD_SLACK <= g.top_paddle.y <= COORD_SLACK
    &&& 0 <= g.top_paddle.h <= DIM_BOUND
}

/// Where the ball will cross the top paddle's line: a straight ballistic
/// projection along the current velocity, folded back onto the surface.
pub open spec fn prediction_model(g: GameModel, w: int) -> int {
    let y_dist = g.ball.top() - g.top_paddle.bottom();
    let t = abs(y_dist) / abs(g.ball_vel.y);
    let raw = g.ball.x + g.ball_vel.x * t;
    fold_raw(raw, w)
}

/// A step capped to at most one paddle-speed in either direction.
pub open spec fn clamp_step(d: int) -> int {
    if d < -(PADDLE_SPEED as int) {
        -(PADDLE_SPEED as int)
    } else if d > PADDLE_SPEED as int {
        PADDLE_SPEED as int
    } else {
        d
    }
}

/// Manual paddle movement: each held direction key shifts its paddle by one
/// paddle-speed; both keys held in one frame cancel out.
pub open spec fn move_paddles(g: GameModel, inp: FrameInput) -> GameModel {
    let tx = g.top_paddle.x + (if inp.top_neg { -(PADDLE_SPEED as int) } else { 0 }) + (
    if inp.top_pos {
        PADDLE_SPEED as int
    } else {
        0
    });
    let bx = g.bottom_paddle.x + (if inp.bottom_neg { -(PADDLE_SPEED as int) } else { 0 }) + (
    if inp.bottom_pos {
        PADDLE_SPEED as int
    } else {
        0
    });
    GameModel {
        top_paddle: RectModel { x: tx, ..g.top_paddle },
        bottom_paddle: RectModel { x: bx, ..g.bottom_paddle },
        ..g
    }
}

/// The automated opponent's transition on (prediction present?, toggle
/// pressed?): pressed toggles it off or on; present and not pressed drives
/// the top paddle toward the target by at most one paddle-speed.
pub open spec fn ai_step(g: GameModel, toggle: bool, w: int) -> GameModel {
    match (g.ai_prediction, toggle) {
        (Some(_), true) => GameModel { ai_prediction: None, ..g },
        (Some(p), false) => GameModel {
            top_paddle: RectModel {
                x: g.top_paddle.x + clamp_step(p - g.top_paddle.x - g.top_paddle.w / 2),
                ..g.top_paddle
            },
            ..g
        },
        (None, true) => GameModel { ai_prediction: Some(prediction_model(g, w)), ..g },
        (None, false) => g,
    }
}

/// Ball integration: the velocity in effect at the start of the frame is
/// added to the position, unconditionally.
pub open spec fn integrate_ball(g: GameModel) -> GameModel {
    GameModel {
        ball: RectModel { x: g.ball.x + g.ball_vel.x, y: g.ball.y + g.ball_vel.y, ..g.ball },
        ..g
    }
}

/// Paddle collision: overlapping either paddle flips the vertical velocity
/// once; the two overlap tests are combined with a single OR, so
/// overlapping both paddles in one frame still flips only once.
pub open spec fn paddle_bounce(g: GameModel) -> GameModel {
    if g.ball.overlaps(g.bottom_paddle) || g.ball.overlaps(g.top_paddle) {
        GameModel { ball_vel: VelModel { y: -g.ball_vel.y, ..g.ball_vel }, ..g }
    } else {
        g
    }
}

/// After a bounce off the bottom paddle, an enabled opponent recomputes its
/// target for the newly reflected trajectory.
pub open spec fn refresh_prediction(g: GameModel, w: int) -> GameModel {
    if g.ball.overlaps(g.bottom_paddle) && g.ai_prediction is Some {
        GameModel { ai_prediction: Some(prediction_model(g, w)), ..g }
    } else {
        g
    }
}

/// Side-wall collision: crossing either vertical edge flips the horizontal
/// velocity.
pub open spec fn wall_bounce(g: GameModel, w: int) -> GameModel {
    if g.ball.left() <= 0 || g.ball.right() >= w {
        GameModel { ball_vel: VelModel { x: -g.ball_vel.x, ..g.ball_vel }, ..g }
    } else {
        g
    }
}

/// Serve after a score: both velocity components invert, the ball recenters
/// at the surface midpoint, and an enabled opponent recomputes its target.
pub open spec fn reset_model(g: GameModel, w: int, h: int) -> GameModel {
    let served = GameModel {
        ball_vel: VelModel { x: -g.ball_vel.x, y: -g.ball_vel.y },
        ball: RectModel { x: w / 2, y: h / 2, ..g.ball },
        ..g
    };
    if g.ai_prediction is Some {
        GameModel { ai_prediction: Some(prediction_model(served, w)), ..served }
    } else {
        served
    }
}

/// Scoring: the ball's top edge crossing zero scores for the bottom paddle,
/// its bottom edge crossing the surface height scores for the top paddle;
/// each score is followed by a reset, and the second test reads the ball as
/// the first test left it.
pub open spec fn settle_scores(g: GameModel, w: int, h: int) -> GameModel {
    let g1 = if g.ball.top() <= 0 {
        reset_model(GameModel { bottom_score: g.bottom_score + 1, ..g }, w, h)
    } else {
        g
    };
    if g1.ball.bottom() >= h {
        reset_model(GameModel { top_score: g1.top_score + 1, ..g1 }, w, h)
    } else {
        g1
    }
}

/// One whole frame, in the order the game runs it: manual paddle movement,
/// the automated opponent, ball integration, paddle collision, prediction
/// refresh, wall collision, scoring.
pub open spec fn step(g: GameModel, inp: FrameInput, w: int, h: int) -> GameModel {
    let g1 = move_paddles(g, inp);
    let g2 = ai_step(g1, inp.toggle_ai, w);
    let g3 = integrate_ball(g2);
    let g4 = paddle_bounce(g3);
    let g5 = refresh_prediction(g4, w);
    let g6 = wall_bounce(g5, w);
    settle_scores(g6, w, h)
}

/// The state every game starts from on a surface of the given size.
pub open spec fn initial_model(w: int, h: int) -> GameModel {
    GameModel {
        top_paddle: RectModel { x: w / 2, y: 10, w: 200, h: 10 },
        bottom_paddle: RectModel { x: w / 2, y: h - 30, w: 200, h: 10 },
        ball: RectModel { x: w / 2, y: h / 2, w: 10, h: 10 },
        ball_vel: VelModel { x: 2, y: 5 },
        top_score: 0,
        bottom_score: 0,
        ai_prediction: None,
    }
}

/// A frame keeps the game invariant: velocities are only ever negated, so
/// they stay nonzero and bounded, and no step touches a size.
pub proof fn lemma_step_preserves_wf(g: GameModel, inp: FrameInput, w: int, h: int)
    requires
        wf(g),
    ensures
        wf(step(g, inp, w, h)),
{
    let g1 = move_paddles(g, inp);
    let g2 = ai_step(g1, inp.toggle_ai, w);
    let g3 = integrate_ball(g2);
    let g4 = paddle_bounce(g3);
    let g5 = refresh_prediction(g4, w);
    let g6 = wall_bounce(g5, w);
    assert(wf(g6));
    assert(step(g, inp, w, h) == settle_scores(g6, w, h));
}

impl GameState {
    /// A fresh game on a surface of the given size: paddles near the top and
    /// bottom edges, the ball at the center, the opponent disabled.
    pub fn new(width: i64, height: i64) -> (s: GameState)
        requires
            1 <= width <= DIM_BOUND,
            1 <= height <= DIM_BOUND,
        ensures
            s@ == initial_model(width as int, height as int),
            wf(s@),
            in_bounds(s@),
    {
        GameState {
            top_paddle: Rect::new(width / 2, 10, 200, 10),
            bottom_paddle: Rect::new(width / 2, height - 30, 200, 10),
            ball: Rect::new(width / 2, height / 2, 10, 10),
            ball_vel: Vel { x: 2, y: 5 },
            top_score: 0,
            bottom_score: 0,
            ai_prediction: None,
        }
    }

    /// The x-coordinate where the ball will cross the top paddle's line,
    /// ballistically projected and folded back onto the surface.
    pub fn get_prediction(&self, width: i64) -> (r: i64)
        requires
            prediction_safe(self@),
            1 <= width <= DIM_BOUND,
        ensures
            r as int == prediction_model(self@, width as int),
            0 <= r <= width,
    {
        let y_dist = self.ball.y - (self.top_paddle.y + self.top_paddle.h);
        let y_abs = if y_dist < 0 {
            -y_dist
        } else {
            y_dist
        };
        let vy_abs = if self.ball_vel.y < 0 {
            -self.ball_vel.y
        } else {
            self.ball_vel.y
        };
        let t = y_abs / vy_abs;
        proof {
            vstd::arithmetic::div_mod::lemma_div_pos_is_pos(y_abs as int, vy_abs as int);
            vstd::arithmetic::div_mod::lemma_div_nonincreasing(y_abs as int, vy_abs as int);
            assert(-0x40_0100_0000_0000 <= (self.ball_vel.x as int) * (t as int)
                <= 0x40_0100_0000_0000) by (nonlinear_arith)
                requires
                    -0x10_0000 <= self.ball_vel.x as int <= 0x10_0000,
                    0 <= t as int <= 0x4_0010_0000,
            ;
        }
        let x_travelled = self.ball_vel.x * t;
        let raw = self.ball.x + x_travelled;
        fold_prediction(raw, width)
    }

    /// Serve after a score: invert both velocity components, recenter the
    /// ball, and recompute an enabled opponent's target.
    pub fn reset_ball(&mut self, width: i64, height: i64)
        requires
            old(self).ball_vel.y != 0,
            -VEL_BOUND <= old(self).ball_vel.x <= VEL_BOUND,
            -VEL_BOUND <= old(self).ball_vel.y <= VEL_BOUND,
            -COORD_SLACK <= old(self)@.top_paddle.y <= COORD_SLACK,
            0 <= old(self)@.top_paddle.h <= DIM_BOUND,
            1 <= width <= DIM_BOUND,
            1 <= height <= DIM_BOUND,
        ensures
            final(self)@ == reset_model(old(self)@, width as int, height as int),
    {
        self.ball_vel.x = -self.ball_vel.x;
        self.ball_vel.y = -self.ball_vel.y;
        self.ball.x = width / 2;
        self.ball.y = height / 2;
        if self.ai_prediction.is_some() {
            let p = self.get_prediction(width);
            self.ai_prediction = Some(p);
        }
    }

    /// Manual paddle movement, as `move_paddles` states it.
    fn apply_move_paddles(&mut self, input: &FrameInput)
        requires
            -COORD_BOUND <= old(self).top_paddle.x <= COORD_BOUND,
            -COORD_BOUND <= old(self).bottom_paddle.x <= COORD_BOUND,
        ensures
            final(self)@ == move_paddles(old(self)@, *input),
    {
        if input.top_neg {
            self.top_paddle.x = self.top_paddle.x - PADDLE_SPEED;
        }
        if input.top_pos {
            self.top_paddle.x = self.top_paddle.x + PADDLE_SPEED;
        }
        if input.bottom_neg {
            self.bottom_paddle.x = self.bottom_paddle.x - PADDLE_SPEED;
        }
        if input.bottom_pos {
            self.bottom_paddle.x = self.bottom_paddle.x + PADDLE_SPEED;
        }
    }

    /// The automated opponent's transition, as `ai_step` states it.
    fn apply_ai_step(&mut self, toggle: bool, width: i64)
        requires
            old(self).ball_vel.y != 0,
            -VEL_BOUND <= old(self).ball_vel.x <= VEL_BOUND,
            -VEL_BOUND <= old(self).ball_vel.y <= VEL_BOUND,
            -COORD_SLACK <= old(self).ball.x <= COORD_SLACK,
            -COORD_SLACK <= old(self).ball.y <= COORD_SLACK,
            -COORD_SLACK <= old(self).top_paddle.x <= COORD_SLACK,
            -COORD_SLACK <= old(self).top_paddle.y <= COORD_SLACK,
            0 <= old(self).top_paddle.w <= DIM_BOUND,
            0 <= old(self).top_paddle.h <= DIM_BOUND,
            old(self)@.ai_prediction is Some ==> -COORD_SLACK <= old(self)@.ai_prediction->0
                <= COORD_SLACK,
            1 <= width <= DIM_BOUND,
        ensures
            final(self)@ == ai_step(old(self)@, toggle, width as int),
    {
        match (self.ai_prediction, toggle) {
            (Some(_), true) => {
                self.ai_prediction = None;
            },
            (Some(p), false) => {
                let half = self.top_paddle.w / 2;
                let delta = p - self.top_paddle.x - half;
                let capped = if delta < -PADDLE_SPEED {
                    -PADDLE_SPEED
                } else if delta > PADDLE_SPEED {
                    PADDLE_SPEED
                } else {
                    delta
                };
                self.top_paddle.x = self.top_paddle.x + capped;
            },
            (None, true) => {
                let p = self.get_prediction(width);
                self.ai_prediction = Some(p);
            },
            (None, false) => {},
        }
    }

    /// Ball integration, as `integrate_ball` states it.
    fn apply_ball_motion(&mut self)
        requires
            -COORD_BOUND <= old(self).ball.x <= COORD_BOUND,
            -COORD_BOUND <= old(self).ball.y <= COORD_BOUND,
            -VEL_BOUND <= old(self).ball_vel.x <= VEL_BOUND,
            -VEL_BOUND <= old(self).ball_vel.y <= VEL_BOUND,
        ensures
            final(self)@ == integrate_ball(old(self)@),
    {
        self.ball.x = self.ball.x + self.ball_vel.x;
        self.ball.y = self.ball.y + self.ball_vel.y;
    }

    /// Paddle collision, as `paddle_bounce` states it.
    fn apply_paddle_bounce(&mut self)
        requires
            -COORD_SLACK <= old(self).ball.x <= COORD_SLACK,
            -COORD_SLACK <= old(self).ball.y <= COORD_SLACK,
            -COORD_SLACK <= old(self).top_paddle.x <= COORD_SLACK,
            -COORD_SLACK <= old(self).top_paddle.y <= COORD_SLACK,
            -COORD_SLACK <= old(self).bottom_paddle.x <= COORD_SLACK,
            -COORD_SLACK <= old(self).bottom_paddle.y <= COORD_SLACK,
            0 <= old(self).ball.w <= DIM_BOUND,
            0 <= old(self).ball.h <= DIM_BOUND,
            0 <= old(self).top_paddle.w <= DIM_BOUND,
            0 <= old(self).top_paddle.h <= DIM_BOUND,
            0 <= old(self).bottom_paddle.w <= DIM_BOUND,
            0 <= old(self).bottom_paddle.h <= DIM_BOUND,
            -VEL_BOUND <= old(self).ball_vel.y <= VEL_BOUND,
        ensures
            final(self)@ == paddle_bounce(old(self)@),
    {
        if self.ball.overlaps(&self.bottom_paddle) || self.ball.overlaps(&self.top_paddle) {
            self.ball_vel.y = -self.ball_vel.y;
        }
    }

    /// The prediction refresh after a bottom-paddle bounce, as
    /// `refresh_prediction` states it.
    fn apply_refresh_prediction(&mut self, width: i64)
        requires
            old(self).ball_vel.y != 0,
            -VEL_BOUND <= old(self).ball_vel.x <= VEL_BOUND,
            -VEL_BOUND <= old(self).ball_vel.y <= VEL_BOUND,
            -COORD_SLACK <= old(self).ball.x <= COORD_SLACK,
            -COORD_SLACK <= old(self).ball.y <= COORD_SLACK,
            -COORD_SLACK <= old(self).top_paddle.x <= COORD_SLACK,
            -COORD_SLACK <= old(self).top_paddle.y <= COORD_SLACK,
            -COORD_SLACK <= old(self).bottom_paddle.x <= COORD_SLACK,
            -COORD_SLACK <= old(self).bottom_paddle.y <= COORD_SLACK,
            0 <= old(self).ball.w <= DIM_BOUND,
            0 <= old(self).ball.h <= DIM_BOUND,
            0 <= old(self).top_paddle.w <= DIM_BOUND,
            0 <= old(self).top_paddle.h <= DIM_BOUND,
            0 <= old(self).bottom_paddle.w <= DIM_BOUND,
            0 <= old(self).bottom_paddle.h <= DIM_BOUND,
            1 <= width <= DIM_BOUND,
        ensures
            final(self)@ == refresh_prediction(old(self)@, width as int),
    {
        if self.ball.overlaps(&self.bottom_paddle) && self.ai_prediction.is_some() {
            let p = self.get_prediction(width);
            self.ai_prediction = Some(p);
        }
    }

    /// Side-wall collision, as `wall_bounce` states it.
    fn apply_wall_bounce(&mut self, width: i64)
        requires
            -COORD_SLACK <= old(self).ball.x <= COORD_SLACK,
            0 <= old(self).ball.w <= DIM_BOUND,
            -VEL_BOUND <= old(self).ball_vel.x <= VEL_BOUND,
        ensures
            final(self)@ == wall_bounce(old(self)@, width as int),
    {
        if self.ball.x <= 0 || self.ball.x + self.ball.w >= width {
            self.ball_vel.x = -self.ball_vel.x;
        }
    }

    /// Scoring and the resets it triggers, as `settle_scores` states it.
    fn apply_scoring(&mut self, width: i64, height: i64)
        requires
            old(self).ball_vel.y != 0,
            -VEL_BOUND <= old(self).ball_vel.x <= VEL_BOUND,
            -VEL_BOUND <= old(self).ball_vel.y <= VEL_BOUND,
            -COORD_SLACK <= old(self).ball.y <= COORD_SLACK,
            0 <= old(self).ball.h <= DIM_BOUND,
            -COORD_SLACK <= old(self).top_paddle.y <= COORD_SLACK,
            0 <= old(self).top_paddle.h <= DIM_BOUND,
            old(self).top_score < SCORE_BOUND,
            old(self).bottom_score < SCORE_BOUND,
            1 <= width <= DIM_BOUND,
            1 <= height <= DIM_BOUND,
        ensures
            final(self)@ == settle_scores(old(self)@, width as int, height as int),
    {
        if self.ball.y <= 0 {
            self.bottom_score = self.bottom_score + 1;
            self.reset_ball(width, height);
        }
        if self.ball.y + self.ball.h >= height {
            self.top_score = self.top_score + 1;
            self.reset_ball(width, height);
        }
    }

    /// One whole frame of the simulation, as `step` states it.
    pub fn update(&mut self, input: &FrameInput, width: i64, height: i64)
        requires
            wf(old(self)@),
            in_bounds(old(self)@),
            1 <= width <= DIM_BOUND,
            1 <= height <= DIM_BOUND,
        ensures
            final(self)@ == step(old(self)@, *input, width as int, height as int),
            wf(final(self)@),
    {
        self.apply_move_paddles(input);
        self.apply_ai_step(input.toggle_ai, width);
        self.apply_ball_motion();
        self.apply_paddle_bounce();
        self.apply_refresh_prediction(width);
        self.apply_wall_bounce(width);
        self.apply_scoring(width, height);
        proof {
            lemma_step_preserves_wf(old(self)@, *input, width as int, height as int);
        }
    }

    /// Whether `update`'s preconditions hold of this state and surface, so
    /// an unverified caller can establish them before the call.
    pub fn ready_for_update(&self, width: i64, height: i64) -> (r: bool)
        ensures
            r == (wf(self@) && in_bounds(self@) && 1 <= width <= DIM_BOUND && 1 <= height
                <= DIM_BOUND),
    {
        let prediction_ok = match self.ai_prediction {
            Some(p) => -COORD_BOUND <= p && p <= COORD_BOUND,
            None => true,
        };
        self.ball_vel.x != 0 && self.ball_vel.y != 0 && -VEL_BOUND <= self.ball_vel.x
            && self.ball_vel.x <= VEL_BOUND && -VEL_BOUND <= self.ball_vel.y && self.ball_vel.y
            <= VEL_BOUND && 0 <= self.top_paddle.w && self.top_paddle.w <= DIM_BOUND
            && 0 <= self.top_paddle.h && self.top_paddle.h <= DIM_BOUND && 0 <= self.bottom_paddle.w
            && self.bottom_paddle.w <= DIM_BOUND && 0 <= self.bottom_paddle.h
            && self.bottom_paddle.h <= DIM_BOUND && 0 <= self.ball.w && self.ball.w <= DIM_BOUND
            && 0 <= self.ball.h && self.ball.h <= DIM_BOUND && -COORD_BOUND <= self.top_paddle.x
            && self.top_paddle.x <= COORD_BOUND && -COORD_BOUND <= self.top_paddle.y
            && self.top_paddle.y <= COORD_BOUND && -COORD_BOUND <= self.bottom_paddle.x
            && self.bottom_paddle.x <= COORD_BOUND && -COORD_BOUND <= self.bottom_paddle.y
            && self.bottom_paddle.y <= COORD_BOUND && -COORD_BOUND <= self.ball.x && self.ball.x
            <= COORD_BOUND && -COORD_BOUND <= self.ball.y && self.ball.y <= COORD_BOUND
            && self.top_score < SCORE_BOUND && self.bottom_score < SCORE_BOUND && prediction_ok
            && 1 <= width && width <= DIM_BOUND && 1 <= height && height <= DIM_BOUND
    }
}

} // verus!
