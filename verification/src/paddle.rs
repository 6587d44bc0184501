//! A paddle: score, vertical position, and a movement rule that refuses to
//! move past the playing-field limits.
use vstd::prelude::*;

use crate::{PADDLE_BOTTOM_LIMIT, PADDLE_TOP_LIMIT, SCORE_MAX_VALUE};

verus! {

/// A paddle. The position is meant to stay within
/// [[`PADDLE_BOTTOM_LIMIT`], [`PADDLE_TOP_LIMIT`]]; the movement rule blocks
/// an upward move at or above the top limit and a downward move below the
/// bottom limit.
#[derive(Clone, Copy, PartialEq, Eq, Structural, Debug)]
pub struct Paddle {
    /// Paddle's score
    pub score: i32,
    /// Paddle's position
    pub pos: i32,
    /// Paddle's velocity
    pub vel: i32,
}

/// Mathematical model of a paddle, over unbounded integers.
pub ghost struct PaddleView {
    pub score: int,
    pub pos: int,
    pub vel: int,
}

impl View for Paddle {
    type V = PaddleView;

    open spec fn view(&self) -> PaddleView {
        PaddleView { score: self.score as int, pos: self.pos as int, vel: self.vel as int }
    }
}

/// One movement step: the velocity is applied only when moving up from below
/// the top limit, or moving down from at or above the bottom limit; otherwise
/// the position is unchanged.
pub open spec fn paddle_step(p: PaddleView) -> PaddleView {
    if (p.vel > 0 && p.pos < PADDLE_TOP_LIMIT) || (p.vel < 0 && p.pos >= PADDLE_BOTTOM_LIMIT) {
        PaddleView { pos: p.pos + p.vel, ..p }
    } else {
        p
    }
}

impl Paddle {
    /// Return a new paddle with score of 0, velocity of 0, and y position of 1.
    /// The X position is defined by whether it's the left paddle or the right
    /// paddle outside of the struct.
    pub fn new() -> (r: Paddle)
        ensures
            r == (Paddle { score: 0, pos: 1, vel: 0 }),
    {
        Paddle { score: 0, pos: 1, vel: 0 }
    }

    /// Score a point; returns true exactly when the new score has reached
    /// [`SCORE_MAX_VALUE`], which ends the match.
    pub fn score_point(&mut self) -> (r: bool)
        requires
            old(self).score < i32::MAX,
        ensures
            final(self).score == old(self).score + 1,
            final(self).pos == old(self).pos,
            final(self).vel == old(self).vel,
            r == (old(self).score + 1 >= SCORE_MAX_VALUE),
    {
        self.score = self.score + 1;
        self.score >= SCORE_MAX_VALUE
    }

    /// Move the paddle according to its velocity, as [`paddle_step`] says.
    pub fn perform_movement(&mut self)
        requires
            (old(self).vel > 0 && old(self).pos < PADDLE_TOP_LIMIT) ==> old(self)@.pos + old(self)@.vel
                <= i32::MAX,
        ensures
            final(self)@ == paddle_step(old(self)@),
    {
        if (self.vel > 0 && self.pos < PADDLE_TOP_LIMIT)
            || (self.vel < 0 && self.pos >= PADDLE_BOTTOM_LIMIT) {
            self.pos = self.pos + self.vel;
        }
    }
}

/// Law: a movement step keeps the position within the playing-field limits,
/// provided that a move it permits lands inside them. (A downward move from
/// the bottom limit itself is permitted by the rule and leaves the range; such
/// starting values are excluded here.)
pub proof fn lemma_step_stays_in_range(p: PaddleView)
    requires
        PADDLE_BOTTOM_LIMIT <= p.pos <= PADDLE_TOP_LIMIT,
        (p.vel > 0 && p.pos < PADDLE_TOP_LIMIT) ==> p.pos + p.vel <= PADDLE_TOP_LIMIT,
        (p.vel < 0 && p.pos >= PADDLE_BOTTOM_LIMIT) ==> p.pos + p.vel >= PADDLE_BOTTOM_LIMIT,
    ensures
        PADDLE_BOTTOM_LIMIT <= paddle_step(p).pos <= PADDLE_TOP_LIMIT,
{
}

/// Law: a paddle at or above the top limit does not move upward.
pub proof fn lemma_no_move_past_top(p: PaddleView)
    requires
        p.vel > 0,
        p.pos >= PADDLE_TOP_LIMIT,
    ensures
        paddle_step(p).pos == p.pos,
{
}

/// Law: a paddle below the bottom limit does not move further down.
pub proof fn lemma_no_move_past_bottom(p: PaddleView)
    requires
        p.vel < 0,
        p.pos < PADDLE_BOTTOM_LIMIT,
    ensures
        paddle_step(p).pos == p.pos,
{
}

} // verus!
