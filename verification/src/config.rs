//! The immutable physics configuration of a match.

use vstd::prelude::*;

verus! {

/// Largest vertical serve velocity, in milli-pixels per tick. A serve draws
/// its vertical velocity uniformly from `[-SERVE_VY_LIMIT, SERVE_VY_LIMIT]`,
/// the fixed-point image of the interval `[-1.0, 1.0]`.
pub const SERVE_VY_LIMIT: i64 = 1000;

/// Upper bound on every dimension and on the paddle speed, in milli-pixels.
pub const DIM_LIMIT: i64 = 1_000_000_000;

/// Upper bound on the horizontal ball velocity, in milli-pixels per tick.
pub const BALL_VEL_LIMIT: i64 = 1_000_000;

/// All sizes, offsets and speeds of the simulation, in milli-pixels.
/// Passed to the match at construction; never mutated afterwards.
#[derive(Clone, Copy, PartialEq, Eq, Structural, Debug)]
pub struct Config {
    pub screen_w: i64,
    pub screen_h: i64,
    pub ball_w: i64,
    pub ball_h: i64,
    pub paddle_w: i64,
    pub paddle_h: i64,
    pub paddle_offset: i64,
    pub paddle_speed: i64,
    pub ball_x_vel: i64,
}

impl Config {
    /// Bound that the magnitude of the vertical ball velocity never exceeds:
    /// wall bounces keep it, serves fall below it, and a paddle deflection
    /// contracts back under it.
    pub open spec fn vy_limit(self) -> int {
        4 * self.ball_x_vel + 2 * SERVE_VY_LIMIT
    }

    /// Horizontal position a served ball is placed at.
    pub open spec fn ball_center_x(self) -> int {
        self.screen_w / 2 + self.ball_w / 2
    }

    /// Vertical position a served ball is placed at.
    pub open spec fn ball_center_y(self) -> int {
        self.screen_h / 2 - self.ball_h / 2
    }

    /// Vertical position both paddles start at.
    pub open spec fn paddle_center_y(self) -> int {
        self.screen_h / 2 - self.paddle_h / 2
    }

    /// A usable configuration: everything positive and bounded, paddles and
    /// ball fit on the screen, and a served ball starts strictly inside the
    /// top and bottom walls even after its first integration step.
    pub open spec fn wf(self) -> bool {
        &&& 1 <= self.ball_w
        &&& 1 <= self.ball_h
        &&& 1 <= self.paddle_w
        &&& 1 <= self.paddle_h
        &&& 0 <= self.paddle_offset
        &&& 0 <= self.paddle_speed <= DIM_LIMIT
        &&& 1 <= self.ball_x_vel <= BALL_VEL_LIMIT
        &&& self.screen_w <= DIM_LIMIT
        &&& self.screen_h <= DIM_LIMIT
        &&& 3 * self.ball_w <= self.screen_w
        &&& self.paddle_h <= self.screen_h
        &&& self.paddle_offset + self.paddle_w <= self.screen_w
        &&& SERVE_VY_LIMIT < self.ball_center_y()
        &&& self.ball_center_y() + SERVE_VY_LIMIT < self.screen_h - self.ball_h
        &&& self.ball_h <= 2 * self.vy_limit()
    }

    /// The serve and start positions lie inside the playing field.
    pub proof fn lemma_centers_in_bounds(self)
        requires
            self.wf(),
        ensures
            0 <= self.ball_center_x() <= self.screen_w - self.ball_w,
            0 < self.ball_center_y() < self.screen_h - self.ball_h,
            0 <= self.paddle_center_y() <= self.screen_h - self.paddle_h,
    {
        vstd::arithmetic::div_mod::lemma_fundamental_div_mod(self.screen_w as int, 2);
        vstd::arithmetic::div_mod::lemma_fundamental_div_mod(self.ball_w as int, 2);
        vstd::arithmetic::div_mod::lemma_fundamental_div_mod(self.screen_h as int, 2);
        vstd::arithmetic::div_mod::lemma_fundamental_div_mod(self.ball_h as int, 2);
        vstd::arithmetic::div_mod::lemma_fundamental_div_mod(self.paddle_h as int, 2);
        vstd::arithmetic::div_mod::lemma_mod_bound(self.screen_w as int, 2);
        vstd::arithmetic::div_mod::lemma_mod_bound(self.ball_w as int, 2);
        vstd::arithmetic::div_mod::lemma_mod_bound(self.screen_h as int, 2);
        vstd::arithmetic::div_mod::lemma_mod_bound(self.ball_h as int, 2);
        vstd::arithmetic::div_mod::lemma_mod_bound(self.paddle_h as int, 2);
    }

    /// Half of a nonnegative length, exactly the spec-level `x / 2`.
    fn half(v: i64) -> (r: i64)
        requires
            0 <= v,
        ensures
            r == v as int / 2,
            0 <= r <= v,
    {
        proof {
            vstd::arithmetic::div_mod::lemma_fundamental_div_mod(v as int, 2);
            vstd::arithmetic::div_mod::lemma_mod_bound(v as int, 2);
        }
        ((v as u64) / 2u64) as i64
    }

    /// Horizontal serve position.
    pub fn center_x(&self) -> (r: i64)
        requires
            self.wf(),
        ensures
            r == self.ball_center_x(),
    {
        Self::half(self.screen_w) + Self::half(self.ball_w)
    }

    /// Vertical serve position.
    pub fn center_y(&self) -> (r: i64)
        requires
            self.wf(),
        ensures
            r == self.ball_center_y(),
    {
        Self::half(self.screen_h) - Self::half(self.ball_h)
    }

    /// Vertical paddle start position.
    pub fn paddle_start_y(&self) -> (r: i64)
        requires
            self.wf(),
        ensures
            r == self.paddle_center_y(),
    {
        Self::half(self.screen_h) - Self::half(self.paddle_h)
    }

    /// The standard constants: an 800 by 600 pixel screen, an 8 by 8 ball,
    /// 8 by 45 paddles offset 55 pixels from the sides, paddle speed 2.5 and
    /// horizontal ball velocity 1.5 pixels per tick.
    pub fn standard() -> (c: Config)
        ensures
            c.wf(),
            c == (Config {
                screen_w: 800_000i64,
                screen_h: 600_000i64,
                ball_w: 8_000i64,
                ball_h: 8_000i64,
                paddle_w: 8_000i64,
                paddle_h: 45_000i64,
                paddle_offset: 55_000i64,
                paddle_speed: 2_500i64,
                ball_x_vel: 1_500i64,
            }),
    {
        Config {
            screen_w: 800_000,
            screen_h: 600_000,
            ball_w: 8_000,
            ball_h: 8_000,
            paddle_w: 8_000,
            paddle_h: 45_000,
            paddle_offset: 55_000,
            paddle_speed: 2_500,
            ball_x_vel: 1_500,
        }
    }

    /// Validated construction: returns the configuration exactly when the
    /// given values are well formed, and nothing otherwise.
    pub fn new(
        screen_w: i64,
        screen_h: i64,
        ball_w: i64,
        ball_h: i64,
        paddle_w: i64,
        paddle_h: i64,
        paddle_offset: i64,
        paddle_speed: i64,
        ball_x_vel: i64,
    ) -> (r: Option<Config>)
        ensures
            ({
                let c = Config {
                    screen_w,
                    screen_h,
                    ball_w,
                    ball_h,
                    paddle_w,
                    paddle_h,
                    paddle_offset,
                    paddle_speed,
                    ball_x_vel,
                };
                r == if c.wf() {
                    Some(c)
                } else {
                    Option::<Config>::None
                }
            }),
    {
        let c = Config {
            screen_w,
            screen_h,
            ball_w,
            ball_h,
            paddle_w,
            paddle_h,
            paddle_offset,
            paddle_speed,
            ball_x_vel,
        };
        if !(1 <= ball_w && 1 <= ball_h && 1 <= paddle_w && 1 <= paddle_h && 0 <= paddle_offset
            && 0 <= paddle_speed && paddle_speed <= DIM_LIMIT && 1 <= ball_x_vel
            && ball_x_vel <= BALL_VEL_LIMIT && screen_w <= DIM_LIMIT && screen_h <= DIM_LIMIT) {
            return None;
        }
        if !(ball_w <= screen_w && 3 * ball_w <= screen_w && paddle_h <= screen_h
            && paddle_offset <= screen_w && paddle_w <= screen_w
            && paddle_offset + paddle_w <= screen_w) {
            return None;
        }
        let cy = Self::half(screen_h) - Self::half(ball_h);
        if !(SERVE_VY_LIMIT < cy && cy + SERVE_VY_LIMIT < screen_h - ball_h
            && ball_h <= 2 * (4 * ball_x_vel + 2 * SERVE_VY_LIMIT)) {
            return None;
        }
        Some(c)
    }
}

} // verus!
