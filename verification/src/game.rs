//! A running match: two paddles, one ball, and the fixed-timestep update
//! that an outside render/input loop drives.

use vstd::prelude::*;
use crate::ball::Ball;
use crate::ball::ScoreEvent;
use crate::config::Config;
use crate::config::SERVE_VY_LIMIT;
use crate::paddle::Direction;
use crate::paddle::Paddle;
use crate::paddle::Side;

verus! {

/// Snapshot of the four logical keys, sampled once per tick by the
/// outside input source.
#[derive(Clone, Copy, PartialEq, Eq, Structural, Debug)]
pub struct Input {
    pub left_up: bool,
    pub left_down: bool,
    pub right_up: bool,
    pub right_down: bool,
}

/// The movement intent a pair of held keys maps to. When both keys of one
/// paddle are held, `Up` wins: the up key is checked first.
pub open spec fn spec_direction_for(up: bool, down: bool) -> Direction {
    if up {
        Direction::Up
    } else if down {
        Direction::Down
    } else {
        Direction::Idle
    }
}

/// Executable key-to-direction mapping.
pub fn direction_for(up: bool, down: bool) -> (d: Direction)
    ensures
        d == spec_direction_for(up, down),
{
    if up {
        Direction::Up
    } else if down {
        Direction::Down
    } else {
        Direction::Idle
    }
}

/// A match: the configuration, both paddles, the ball, and the finished
/// switch. The switch is a placeholder the game logic never sets — no win
/// condition exists — but a tick reports it so the outside run loop can
/// stop once something else sets it.
#[derive(Clone, Copy, PartialEq, Eq, Structural, Debug)]
pub struct Match {
    pub config: Config,
    pub left: Paddle,
    pub right: Paddle,
    pub ball: Ball,
    pub finished: bool,
}

impl Match {
    /// Configuration, paddles and ball are all well formed.
    pub open spec fn wf(self) -> bool {
        &&& self.config.wf()
        &&& self.left.wf(self.config)
        &&& self.right.wf(self.config)
        &&& self.ball.wf(self.config)
    }

    /// A fresh match: both paddles on their sides, a ball served with the
    /// given vertical velocity, nothing finished, scores zero.
    pub open spec fn spec_new(c: Config, serve_vy: i64) -> Match {
        Match {
            config: c,
            left: Paddle::spec_new(c, Side::Left),
            right: Paddle::spec_new(c, Side::Right),
            ball: Ball::spec_served(c, c.ball_x_vel as int, serve_vy),
            finished: false,
        }
    }

    /// One fixed-timestep update: map the key snapshot to both paddles'
    /// directions, tick both paddles, tick the ball (crediting a boundary
    /// crossing to the scoring player and re-serving with `serve_vy`), then
    /// deflect the ball off the left paddle and after that off the right
    /// paddle — in that order, the second check free to overwrite the
    /// first.
    pub open spec fn spec_tick(self, input: Input, serve_vy: i64) -> Match {
        let c = self.config;
        let l1 = (Paddle {
            direction: spec_direction_for(input.left_up, input.left_down),
            ..self.left
        }).spec_tick(c);
        let r1 = (Paddle {
            direction: spec_direction_for(input.right_up, input.right_down),
            ..self.right
        }).spec_tick(c);
        let stepped = self.ball.spec_tick(c, serve_vy);
        let ev = stepped.1;
        let l2 = if ev == ScoreEvent::LeftScores {
            Paddle { score: (l1.score + 1) as u32, ..l1 }
        } else {
            l1
        };
        let r2 = if ev == ScoreEvent::RightScores {
            Paddle { score: (r1.score + 1) as u32, ..r1 }
        } else {
            r1
        };
        let b2 = stepped.0.spec_deflected(c, l2.rect).spec_deflected(c, r2.rect);
        Match { left: l2, right: r2, ball: b2, ..self }
    }

    /// A tick keeps the match well formed.
    pub proof fn lemma_tick_preserves_wf(self, input: Input, serve_vy: i64)
        requires
            self.wf(),
            -SERVE_VY_LIMIT <= serve_vy <= SERVE_VY_LIMIT,
        ensures
            self.spec_tick(input, serve_vy).wf(),
    {
        let c = self.config;
        let l0 = Paddle {
            direction: spec_direction_for(input.left_up, input.left_down),
            ..self.left
        };
        let r0 = Paddle {
            direction: spec_direction_for(input.right_up, input.right_down),
            ..self.right
        };
        l0.lemma_tick_preserves_wf(c);
        r0.lemma_tick_preserves_wf(c);
        self.ball.lemma_tick_preserves_wf(c, serve_vy);
        let stepped = self.ball.spec_tick(c, serve_vy);
        let ev = stepped.1;
        let l2 = if ev == ScoreEvent::LeftScores {
            Paddle { score: (l0.spec_tick(c).score + 1) as u32, ..l0.spec_tick(c) }
        } else {
            l0.spec_tick(c)
        };
        let r2 = if ev == ScoreEvent::RightScores {
            Paddle { score: (r0.spec_tick(c).score + 1) as u32, ..r0.spec_tick(c) }
        } else {
            r0.spec_tick(c)
        };
        stepped.0.lemma_deflected_preserves_wf(c, l2.rect);
        stepped.0.spec_deflected(c, l2.rect).lemma_deflected_preserves_wf(c, r2.rect);
    }

    /// Start a match with a chosen serve velocity.
    pub fn new_with(c: &Config, serve_vy: i64) -> (m: Match)
        requires
            c.wf(),
            -SERVE_VY_LIMIT <= serve_vy <= SERVE_VY_LIMIT,
        ensures
            m == Self::spec_new(*c, serve_vy),
            m.wf(),
    {
        Match {
            config: *c,
            left: Paddle::new(c, Side::Left),
            right: Paddle::new(c, Side::Right),
            ball: Ball::new_with(c, serve_vy),
            finished: false,
        }
    }

    /// Start a match with a random serve velocity, drawn uniformly from
    /// `[-SERVE_VY_LIMIT, SERVE_VY_LIMIT]`.
    pub fn new(c: &Config) -> (m: Match)
        requires
            c.wf(),
        ensures
            -SERVE_VY_LIMIT <= m.ball.vy <= SERVE_VY_LIMIT,
            m == Self::spec_new(*c, m.ball.vy),
            m.wf(),
    {
        let b = Ball::new(c);
        Match {
            config: *c,
            left: Paddle::new(c, Side::Left),
            right: Paddle::new(c, Side::Right),
            ball: b,
            finished: false,
        }
    }

    /// One fixed-timestep update with a chosen serve velocity. Returns
    /// whether the match was already finished, which tells the outside run
    /// loop to stop; the update itself runs regardless.
    pub fn tick_with(&mut self, input: Input, serve_vy: i64) -> (quit: bool)
        requires
            old(self).wf(),
            -SERVE_VY_LIMIT <= serve_vy <= SERVE_VY_LIMIT,
            old(self).left.score < u32::MAX,
            old(self).right.score < u32::MAX,
        ensures
            *final(self) == old(self).spec_tick(input, serve_vy),
            final(self).wf(),
            quit == old(self).finished,
    {
        proof {
            old(self).lemma_tick_preserves_wf(input, serve_vy);
        }
        let quit = self.finished;
        let c = self.config;
        let mut left = self.left;
        let mut right = self.right;
        let mut ball = self.ball;
        left.set_direction(direction_for(input.left_up, input.left_down));
        right.set_direction(direction_for(input.right_up, input.right_down));
        left.tick(&c);
        right.tick(&c);
        let mut left_score = left.score;
        let mut right_score = right.score;
        ball.tick(&c, &mut left_score, &mut right_score, serve_vy);
        left.score = left_score;
        right.score = right_score;
        ball.check_collision(&c, left.rect);
        ball.check_collision(&c, right.rect);
        self.left = left;
        self.right = right;
        self.ball = ball;
        quit
    }

    /// One fixed-timestep update with a random serve velocity: the update
    /// equals `spec_tick` for some serve velocity within the serve range.
    pub fn tick(&mut self, input: Input) -> (quit: bool)
        requires
            old(self).wf(),
            old(self).left.score < u32::MAX,
            old(self).right.score < u32::MAX,
        ensures
            exists|vy: i64|
                -SERVE_VY_LIMIT <= vy <= SERVE_VY_LIMIT && *final(self) == old(self).spec_tick(
                    input,
                    vy,
                ),
            final(self).wf(),
            quit == old(self).finished,
    {
        let mut rng = crate::rng::fresh_rng();
        let vy = crate::rng::sample_inclusive(&mut rng, -SERVE_VY_LIMIT, SERVE_VY_LIMIT);
        self.tick_with(input, vy)
    }

    /// Run a whole sequence of ticks under one held key snapshot, one
    /// serve velocity per tick.
    pub open spec fn spec_run(m: Match, input: Input, vys: Seq<i64>) -> Match
        decreases vys.len(),
    {
        if vys.len() == 0 {
            m
        } else {
            Self::spec_run(m.spec_tick(input, vys[0]), input, vys.drop_first())
        }
    }

    /// Ticking preserves well-formedness over any run.
    pub proof fn lemma_run_preserves_wf(m: Match, input: Input, vys: Seq<i64>)
        requires
            m.wf(),
            forall|i: int| 0 <= i < vys.len() ==> -SERVE_VY_LIMIT <= #[trigger] vys[i]
                <= SERVE_VY_LIMIT,
        ensures
            Self::spec_run(m, input, vys).wf(),
        decreases vys.len(),
    {
        if vys.len() > 0 {
            m.lemma_tick_preserves_wf(input, vys[0]);
            Self::lemma_run_preserves_wf(m.spec_tick(input, vys[0]), input, vys.drop_first());
        }
    }

    /// Convergence law for a held up key: after `k` ticks with the left
    /// up key held, the left paddle's top edge sits at
    /// `max(0, y0 - k * paddle_speed)`; in particular once
    /// `k * paddle_speed >= y0` it has reached the top wall and stays
    /// there.
    pub proof fn lemma_left_up_converges_to_top(m: Match, input: Input, vys: Seq<i64>)
        requires
            m.wf(),
            input.left_up,
            forall|i: int| 0 <= i < vys.len() ==> -SERVE_VY_LIMIT <= #[trigger] vys[i]
                <= SERVE_VY_LIMIT,
        ensures
            Self::spec_run(m, input, vys).left.rect.y == vstd::math::max(
                0,
                m.left.rect.y - vys.len() * m.config.paddle_speed,
            ),
            vys.len() * m.config.paddle_speed >= m.left.rect.y ==> Self::spec_run(
                m,
                input,
                vys,
            ).left.rect.y == 0,
        decreases vys.len(),
    {
        let c = m.config;
        let k = vys.len() as int;
        let ps = c.paddle_speed as int;
        if vys.len() == 0 {
            assert(k * ps == 0) by (nonlinear_arith)
                requires k == 0;
        } else {
            let m1 = m.spec_tick(input, vys[0]);
            m.lemma_tick_preserves_wf(input, vys[0]);
            assert(m1.left.rect.y == vstd::math::max(0, m.left.rect.y - ps));
            let rest = vys.drop_first();
            Self::lemma_left_up_converges_to_top(m1, input, rest);
            assert(k * ps == (k - 1) * ps + ps) by (nonlinear_arith);
            assert((k - 1) * ps >= 0) by (nonlinear_arith)
                requires
                    k >= 1,
                    ps >= 0,
            ;
        }
    }
}

} // verus!
