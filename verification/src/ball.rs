//! The ball: wall bounce, scoring and serve, Euler integration, and the
//! sine-based paddle deflection.

use vstd::prelude::*;
use crate::config::Config;
use crate::config::SERVE_VY_LIMIT;
use crate::geometry::Rect;
use crate::numeric::QUARTER_PI_MICRO;
use crate::numeric::isqrt;
use crate::numeric::isqrt_u64;
use crate::numeric::lemma_isqrt_of_squares;
use crate::numeric::lemma_sin_micro_abs;
use crate::numeric::lemma_tdiv_abs;
use crate::numeric::lemma_tdiv_bound;
use crate::numeric::phi_micro;
use crate::numeric::phi_micro_i64;
use crate::numeric::sin_micro;
use crate::numeric::sin_micro_i64;
use crate::numeric::tdiv;
use crate::numeric::tdiv_i64;

verus! {

/// Which player, if any, a tick awarded a point to. Crossing the left
/// boundary scores for the left player, the right boundary for the right
/// player.
#[derive(Clone, Copy, PartialEq, Eq, Structural, Debug)]
pub enum ScoreEvent {
    LeftScores,
    RightScores,
    NoScore,
}

/// The ball: bounding box plus velocity vector.
#[derive(Clone, Copy, PartialEq, Eq, Structural, Debug)]
pub struct Ball {
    pub rect: Rect,
    pub vx: i64,
    pub vy: i64,
}

impl Ball {
    /// Invariant kept by every tick and every deflection: the ball has the
    /// configured size; the horizontal velocity is exactly the configured
    /// magnitude; the vertical velocity is bounded; the position can leave
    /// the field only by one velocity's worth — and while the ball sits
    /// beyond a wall moving away from it, it got there by a bounce that the
    /// next tick undoes, so it never escapes.
    pub open spec fn wf(self, c: Config) -> bool {
        &&& self.rect.w == c.ball_w
        &&& self.rect.h == c.ball_h
        &&& (self.vx == c.ball_x_vel || self.vx == -c.ball_x_vel)
        &&& -c.vy_limit() <= self.vy <= c.vy_limit()
        &&& -c.ball_x_vel <= self.rect.x <= c.screen_w - c.ball_w + c.ball_x_vel
        &&& -3 * c.vy_limit() <= self.rect.y
        &&& self.rect.y <= c.screen_h - c.ball_h + 3 * c.vy_limit()
        &&& (self.rect.y <= 0 && self.vy > 0 ==> self.rect.y - self.vy >= -3 * c.vy_limit())
        &&& (self.rect.y >= c.screen_h - c.ball_h && self.vy < 0 ==> self.rect.y - self.vy
            <= c.screen_h - c.ball_h + 3 * c.vy_limit())
    }

    /// Wall reflection: touching or passing the top or bottom wall negates
    /// the vertical velocity; the position is not clamped.
    pub open spec fn spec_bounced(self, c: Config) -> Ball {
        if self.rect.y <= 0 || self.rect.y >= c.screen_h - c.ball_h {
            Ball { vy: (-self.vy) as i64, ..self }
        } else {
            self
        }
    }

    /// Who scores this tick: the left player when the ball crosses the left
    /// boundary, the right player when it crosses the right boundary.
    pub open spec fn spec_score_event(self, c: Config) -> ScoreEvent {
        if self.rect.x <= 0 {
            ScoreEvent::LeftScores
        } else if self.rect.x >= c.screen_w - c.ball_w {
            ScoreEvent::RightScores
        } else {
            ScoreEvent::NoScore
        }
    }

    /// A ball placed at the serve position with the given velocity.
    pub open spec fn spec_served(c: Config, vx: int, vy: i64) -> Ball {
        Ball {
            rect: Rect {
                x: c.ball_center_x() as i64,
                y: c.ball_center_y() as i64,
                w: c.ball_w,
                h: c.ball_h,
            },
            vx: vx as i64,
            vy,
        }
    }

    /// One physics tick: wall bounce, then scoring (which re-serves the
    /// ball towards the player who was just scored against, with vertical
    /// velocity `serve_vy`), then one Euler integration step.
    pub open spec fn spec_tick(self, c: Config, serve_vy: i64) -> (Ball, ScoreEvent) {
        let b1 = self.spec_bounced(c);
        let ev = b1.spec_score_event(c);
        let b2 = if ev == ScoreEvent::LeftScores {
            Self::spec_served(c, -c.ball_x_vel, serve_vy)
        } else if ev == ScoreEvent::RightScores {
            Self::spec_served(c, c.ball_x_vel as int, serve_vy)
        } else {
            b1
        };
        let b3 = Ball {
            rect: Rect {
                x: (b2.rect.x + b2.vx) as i64,
                y: (b2.rect.y + b2.vy) as i64,
                ..b2.rect
            },
            ..b2
        };
        (b3, ev)
    }

    /// Paddle deflection: on overlap the horizontal velocity reverses and
    /// the vertical velocity becomes `speed * sin(phi)`, where `phi` ranges
    /// over `[-pi/4, pi/4]` as the contact offset ranges from the paddle's
    /// top edge to its bottom edge. Everything in fixed point: the offset in
    /// milliunits, the angle in microradians, the sine in microunits.
    pub open spec fn spec_deflected(self, c: Config, paddle_rect: Rect) -> Ball {
        if self.rect.spec_overlaps(paddle_rect) {
            let off = tdiv((self.rect.y + c.ball_h - paddle_rect.y) * 1000, c.paddle_h + c.ball_h);
            let t = 2 * off - 1000;
            let s = isqrt((self.vx * self.vx + self.vy * self.vy) as nat);
            Ball {
                vx: (-self.vx) as i64,
                vy: tdiv(s * sin_micro(phi_micro(t)), 1_000_000) as i64,
                ..self
            }
        } else {
            self
        }
    }

    /// Construct a served ball with a chosen vertical velocity.
    pub fn new_with(c: &Config, serve_vy: i64) -> (b: Ball)
        requires
            c.wf(),
            -SERVE_VY_LIMIT <= serve_vy <= SERVE_VY_LIMIT,
        ensures
            b == Self::spec_served(*c, c.ball_x_vel as int, serve_vy),
            b.wf(*c),
    {
        proof {
            c.lemma_centers_in_bounds();
        }
        Ball {
            rect: Rect { x: c.center_x(), y: c.center_y(), w: c.ball_w, h: c.ball_h },
            vx: c.ball_x_vel,
            vy: serve_vy,
        }
    }

    /// Construct a served ball with a random vertical velocity, drawn
    /// uniformly from `[-SERVE_VY_LIMIT, SERVE_VY_LIMIT]`.
    pub fn new(c: &Config) -> (b: Ball)
        requires
            c.wf(),
        ensures
            -SERVE_VY_LIMIT <= b.vy <= SERVE_VY_LIMIT,
            b == Self::spec_served(*c, c.ball_x_vel as int, b.vy),
            b.wf(*c),
    {
        let mut rng = crate::rng::fresh_rng();
        let vy = crate::rng::sample_inclusive(&mut rng, -SERVE_VY_LIMIT, SERVE_VY_LIMIT);
        Self::new_with(c, vy)
    }

    /// A tick keeps the ball well formed.
    pub proof fn lemma_tick_preserves_wf(self, c: Config, serve_vy: i64)
        requires
            c.wf(),
            self.wf(c),
            -SERVE_VY_LIMIT <= serve_vy <= SERVE_VY_LIMIT,
        ensures
            self.spec_tick(c, serve_vy).0.wf(c),
    {
        c.lemma_centers_in_bounds();
    }

    /// One physics tick. Increments the score sink of whichever player the
    /// ball's boundary crossing awards a point to, exactly once.
    pub fn tick(&mut self, c: &Config, left_score: &mut u32, right_score: &mut u32, serve_vy: i64)
        requires
            c.wf(),
            old(self).wf(*c),
            -SERVE_VY_LIMIT <= serve_vy <= SERVE_VY_LIMIT,
            *old(left_score) < u32::MAX,
            *old(right_score) < u32::MAX,
        ensures
            *final(self) == old(self).spec_tick(*c, serve_vy).0,
            final(self).wf(*c),
            *final(left_score) == if old(self).spec_tick(*c, serve_vy).1 == ScoreEvent::LeftScores {
                *old(left_score) + 1
            } else {
                *old(left_score) as int
            },
            *final(right_score) == if old(self).spec_tick(*c, serve_vy).1
                == ScoreEvent::RightScores {
                *old(right_score) + 1
            } else {
                *old(right_score) as int
            },
    {
        proof {
            old(self).lemma_tick_preserves_wf(*c, serve_vy);
            c.lemma_centers_in_bounds();
        }
        if self.rect.y <= 0 || self.rect.y >= c.screen_h - c.ball_h {
            self.vy = -self.vy;
        }
        if self.rect.x <= 0 {
            *left_score = *left_score + 1;
            self.rect.x = c.center_x();
            self.rect.y = c.center_y();
            self.vx = -c.ball_x_vel;
            self.vy = serve_vy;
        } else if self.rect.x >= c.screen_w - c.ball_w {
            *right_score = *right_score + 1;
            self.rect.x = c.center_x();
            self.rect.y = c.center_y();
            self.vx = c.ball_x_vel;
            self.vy = serve_vy;
        }
        self.rect.x = self.rect.x + self.vx;
        self.rect.y = self.rect.y + self.vy;
    }

    /// A deflection keeps the ball well formed: in particular the new
    /// vertical velocity stays under the velocity bound.
    pub proof fn lemma_deflected_preserves_wf(self, c: Config, paddle_rect: Rect)
        requires
            c.wf(),
            self.wf(c),
            paddle_rect.h == c.paddle_h,
            0 <= paddle_rect.y,
            paddle_rect.y + paddle_rect.h <= c.screen_h,
        ensures
            self.spec_deflected(c, paddle_rect).wf(c),
    {
        if self.rect.spec_overlaps(paddle_rect) {
            let num = (self.rect.y + c.ball_h - paddle_rect.y) * 1000;
            let den = c.paddle_h + c.ball_h;
            let off = tdiv(num, den);
            assert(0 <= num <= 1000 * den);
            lemma_tdiv_abs(num, den);
            lemma_tdiv_bound(num, den, 1000);
            let t = 2 * off - 1000;
            let phi = phi_micro(t);
            lemma_tdiv_bound(QUARTER_PI_MICRO * t, 1000, QUARTER_PI_MICRO as int);
            lemma_sin_micro_abs(phi);
            let sp = sin_micro(phi);
            let s = isqrt((self.vx * self.vx + self.vy * self.vy) as nat);
            lemma_isqrt_of_squares(self.vx as int, self.vy as int);
            assert(0 <= s <= vstd::math::abs(self.vx as int) + vstd::math::abs(self.vy as int));
            let smax = 5 * c.ball_x_vel + 2 * SERVE_VY_LIMIT;
            assert(s <= smax);
            assert(-(smax * QUARTER_PI_MICRO) <= s * sp <= smax * QUARTER_PI_MICRO)
                by (nonlinear_arith)
                requires
                    0 <= s <= smax,
                    -QUARTER_PI_MICRO <= sp <= QUARTER_PI_MICRO,
            ;
            assert(vstd::math::abs(s * sp) <= c.vy_limit() * 1_000_000);
            lemma_tdiv_bound(s * sp, 1_000_000, c.vy_limit());
        }
    }

    /// Deflect the ball off the given paddle rectangle, if they overlap.
    pub fn check_collision(&mut self, c: &Config, paddle_rect: Rect)
        requires
            c.wf(),
            old(self).wf(*c),
            paddle_rect.w == c.paddle_w,
            paddle_rect.h == c.paddle_h,
            0 <= paddle_rect.x,
            paddle_rect.x + paddle_rect.w <= c.screen_w,
            0 <= paddle_rect.y,
            paddle_rect.y + paddle_rect.h <= c.screen_h,
        ensures
            *final(self) == old(self).spec_deflected(*c, paddle_rect),
            final(self).wf(*c),
    {
        proof {
            old(self).lemma_deflected_preserves_wf(*c, paddle_rect);
        }
        if self.rect.overlaps(&paddle_rect) {
            let num = (self.rect.y + c.ball_h - paddle_rect.y) * 1000;
            let den = c.paddle_h + c.ball_h;
            proof {
                lemma_tdiv_abs(num as int, den as int);
                lemma_tdiv_bound(num as int, den as int, 1000);
            }
            let off = tdiv_i64(num, den);
            let t = 2 * off - 1000;
            let phi = phi_micro_i64(t);
            let sinp = sin_micro_i64(phi);
            proof {
                assert(0 <= self.vx * self.vx <= BALL_SQ_LIMIT) by (nonlinear_arith)
                    requires
                        -1_000_000 <= self.vx <= 1_000_000,
                ;
                assert(0 <= self.vy * self.vy <= VY_SQ_LIMIT) by (nonlinear_arith)
                    requires
                        -4_002_000 <= self.vy <= 4_002_000,
                ;
            }
            let sq = self.vx * self.vx + self.vy * self.vy;
            let s = isqrt_u64(sq as u64) as i64;
            proof {
                lemma_isqrt_of_squares(self.vx as int, self.vy as int);
                let smax = 5 * c.ball_x_vel + 2 * SERVE_VY_LIMIT;
                assert(-(smax * QUARTER_PI_MICRO) <= (s as int) * (sinp as int)
                    <= smax * QUARTER_PI_MICRO) by (nonlinear_arith)
                    requires
                        0 <= s <= smax,
                        -QUARTER_PI_MICRO <= sinp <= QUARTER_PI_MICRO,
                ;
            }
            self.vx = -self.vx;
            self.vy = tdiv_i64(s * sinp, 1_000_000);
        }
    }
    /// The ball's bounding box, for collision and for drawing.
    pub fn rect(&self) -> (r: Rect)
        ensures
            r == self.rect,
    {
        self.rect
    }

    /// Run a whole sequence of ticks, one serve velocity per tick (used
    /// only when a tick actually serves).
    pub open spec fn spec_run(b: Ball, c: Config, vys: Seq<i64>) -> Ball
        decreases vys.len(),
    {
        if vys.len() == 0 {
            b
        } else {
            Self::spec_run(b.spec_tick(c, vys[0]).0, c, vys.drop_first())
        }
    }

    /// Free-flight law: while the ball is strictly inside the field and no
    /// boundary event occurs, a ball without vertical velocity moves by
    /// exactly its horizontal velocity each tick and nothing else changes.
    pub proof fn lemma_free_flight(b: Ball, c: Config, vys: Seq<i64>)
        requires
            c.wf(),
            b.wf(c),
            b.vy == 0,
            0 < b.rect.y < c.screen_h - c.ball_h,
            forall|i: int| 0 <= i < vys.len() ==> 0 < b.rect.x + #[trigger] (i * b.vx)
                < c.screen_w - c.ball_w,
        ensures
            Self::spec_run(b, c, vys).rect.x == b.rect.x + vys.len() * b.vx,
            Self::spec_run(b, c, vys).rect.y == b.rect.y,
            Self::spec_run(b, c, vys).vx == b.vx,
            Self::spec_run(b, c, vys).vy == 0,
            Self::spec_run(b, c, vys).rect.w == b.rect.w,
            Self::spec_run(b, c, vys).rect.h == b.rect.h,
        decreases vys.len(),
    {
        if vys.len() > 0 {
            assert(0 < b.rect.x + 0 * b.vx < c.screen_w - c.ball_w);
            let step = b.spec_tick(c, vys[0]);
            let b1 = step.0;
            assert(b1.rect.x == b.rect.x + b.vx);
            assert(b1.wf(c));
            let rest = vys.drop_first();
            assert forall|i: int| 0 <= i < rest.len() implies 0 < b1.rect.x + #[trigger] (i
                * b1.vx) < c.screen_w - c.ball_w by {
                assert(0 < b.rect.x + (i + 1) * b.vx < c.screen_w - c.ball_w);
                assert((i + 1) * b.vx == i * b.vx + b.vx) by (nonlinear_arith);
            }
            Self::lemma_free_flight(b1, c, rest);
            assert(rest.len() * b1.vx + b.vx == vys.len() * b.vx) by (nonlinear_arith)
                requires
                    b1.vx == b.vx,
                    rest.len() + 1 == vys.len(),
            ;
        } else {
            assert(vys.len() * b.vx == 0) by (nonlinear_arith)
                requires vys.len() == 0;
        }
    }

    /// Part of speed conservation that the deflection formula does give: it
    /// reverses the horizontal velocity and preserves its magnitude
    /// exactly. The vertical component is recomputed from the contact
    /// offset alone, so the full speed magnitude is generally not
    /// preserved.
    pub proof fn lemma_deflection_preserves_horizontal_speed(b: Ball, c: Config, paddle_rect: Rect)
        requires
            c.wf(),
            b.wf(c),
        ensures
            vstd::math::abs(b.spec_deflected(c, paddle_rect).vx as int)
                == vstd::math::abs(b.vx as int),
    {
    }
}

/// Largest possible square of the horizontal velocity.
pub const BALL_SQ_LIMIT: i64 = 1_000_000_000_000;

/// Largest possible square of the vertical velocity: the velocity bound is
/// at most `4 * BALL_VEL_LIMIT + 2 * SERVE_VY_LIMIT = 4_002_000`.
pub const VY_SQ_LIMIT: i64 = 16_016_004_000_000;

} // verus!
