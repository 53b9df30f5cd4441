//! A player's paddle: position, movement intent and score.

use vstd::prelude::*;
use crate::config::Config;
use crate::geometry::Rect;

verus! {

/// Movement intent for the next tick.
#[derive(Clone, Copy, PartialEq, Eq, Structural, Debug)]
pub enum Direction {
    Up,
    Down,
    Idle,
}

/// Which side of the screen a paddle defends.
#[derive(Clone, Copy, PartialEq, Eq, Structural, Debug)]
pub enum Side {
    Left,
    Right,
}

/// A paddle with its bounding box, movement intent and the owning
/// player's score.
#[derive(Clone, Copy, PartialEq, Eq, Structural, Debug)]
pub struct Paddle {
    pub rect: Rect,
    pub direction: Direction,
    pub score: u32,
}

impl Paddle {
    /// The paddle has the configured size and sits fully on the screen.
    pub open spec fn wf(self, c: Config) -> bool {
        &&& self.rect.w == c.paddle_w
        &&& self.rect.h == c.paddle_h
        &&& 0 <= self.rect.y
        &&& self.rect.y + self.rect.h <= c.screen_h
        &&& 0 <= self.rect.x
        &&& self.rect.x + self.rect.w <= c.screen_w
    }

    /// A fresh paddle: vertically centered, offset from its own side,
    /// idle, score zero.
    pub open spec fn spec_new(c: Config, side: Side) -> Paddle {
        Paddle {
            rect: Rect {
                x: if side == Side::Left {
                    c.paddle_offset
                } else {
                    (c.screen_w - c.paddle_offset - c.paddle_w) as i64
                },
                y: c.paddle_center_y() as i64,
                w: c.paddle_w,
                h: c.paddle_h,
            },
            direction: Direction::Idle,
            score: 0,
        }
    }

    /// One movement step: `Up` decreases y by the paddle speed, clamped at
    /// the top wall; `Down` increases it, clamped at the bottom wall; `Idle`
    /// leaves the paddle in place. Nothing else changes.
    pub open spec fn spec_tick(self, c: Config) -> Paddle {
        match self.direction {
            Direction::Up => Paddle {
                rect: Rect {
                    y: vstd::math::max(0, self.rect.y - c.paddle_speed) as i64,
                    ..self.rect
                },
                ..self
            },
            Direction::Down => Paddle {
                rect: Rect {
                    y: vstd::math::min(
                        c.screen_h - c.paddle_h,
                        self.rect.y + c.paddle_speed,
                    ) as i64,
                    ..self.rect
                },
                ..self
            },
            Direction::Idle => self,
        }
    }

    /// Clamping keeps a well-formed paddle well formed.
    pub proof fn lemma_tick_preserves_wf(self, c: Config)
        requires
            c.wf(),
            self.wf(c),
        ensures
            self.spec_tick(c).wf(c),
    {
    }

    /// Construct the paddle of the given side.
    pub fn new(c: &Config, side: Side) -> (p: Paddle)
        requires
            c.wf(),
        ensures
            p == Self::spec_new(*c, side),
            p.wf(*c),
    {
        proof {
            c.lemma_centers_in_bounds();
        }
        let x = match side {
            Side::Left => c.paddle_offset,
            Side::Right => c.screen_w - c.paddle_offset - c.paddle_w,
        };
        Paddle {
            rect: Rect { x, y: c.paddle_start_y(), w: c.paddle_w, h: c.paddle_h },
            direction: Direction::Idle,
            score: 0,
        }
    }

    /// Set the movement intent for the next tick.
    pub fn set_direction(&mut self, d: Direction)
        ensures
            *final(self) == (Paddle { direction: d, ..*old(self) }),
    {
        self.direction = d;
    }

    /// Apply the current movement intent once, clamped to the screen.
    pub fn tick(&mut self, c: &Config)
        requires
            c.wf(),
            old(self).wf(*c),
        ensures
            *final(self) == old(self).spec_tick(*c),
            final(self).wf(*c),
    {
        match self.direction {
            Direction::Up => {
                if self.rect.y >= c.paddle_speed {
                    self.rect.y = self.rect.y - c.paddle_speed;
                } else {
                    self.rect.y = 0;
                }
            },
            Direction::Down => {
                let limit = c.screen_h - c.paddle_h;
                if self.rect.y + c.paddle_speed <= limit {
                    self.rect.y = self.rect.y + c.paddle_speed;
                } else {
                    self.rect.y = limit;
                }
            },
            Direction::Idle => {},
        }
    }

    /// The paddle's bounding box, for collision and for drawing.
    pub fn rect(&self) -> (r: Rect)
        ensures
            r == self.rect,
    {
        self.rect
    }

    /// Run a whole sequence of movement intents, one tick each.
    pub open spec fn spec_run(p: Paddle, c: Config, dirs: Seq<Direction>) -> Paddle
        decreases dirs.len(),
    {
        if dirs.len() == 0 {
            p
        } else {
            Self::spec_run(
                (Paddle { direction: dirs[0], ..p }).spec_tick(c),
                c,
                dirs.drop_first(),
            )
        }
    }

    /// Paddle clamping law: whatever sequence of directions drives a
    /// well-formed paddle, its vertical position stays within
    /// `[0, screen_h - paddle_h]`.
    pub proof fn lemma_run_stays_on_screen(p: Paddle, c: Config, dirs: Seq<Direction>)
        requires
            c.wf(),
            p.wf(c),
        ensures
            Self::spec_run(p, c, dirs).wf(c),
        decreases dirs.len(),
    {
        if dirs.len() > 0 {
            let p1 = (Paddle { direction: dirs[0], ..p }).spec_tick(c);
            (Paddle { direction: dirs[0], ..p }).lemma_tick_preserves_wf(c);
            Self::lemma_run_stays_on_screen(p1, c, dirs.drop_first());
        }
    }
}

} // verus!
