//! The ball: integer position and velocity, one deterministic movement rule.
use vstd::prelude::*;

use crate::{
    EDGE_BOTTOM, EDGE_LEFT, EDGE_RIGHT, EDGE_TOP, INITIAL_VELOCITY, MIDDLE_POS_X, MIDDLE_POS_Y,
    PADDLE_HEIGHT,
};

verus! {

/// The ball. Positions may leave the playing field for one step; the movement
/// rule then flips the corresponding velocity component. `changed_direction`
/// records whether the most recent movement step bounced off an edge; it only
/// drives an audio cue, but it is part of the snapshot so that resimulation
/// reproduces it.
#[derive(Clone, Copy, PartialEq, Eq, Structural, Debug)]
pub struct Ball {
    /// Ball's X position
    pub pos_x: i32,
    /// Ball's Y position
    pub pos_y: i32,
    /// Ball's X velocity
    pub vel_x: i32,
    /// Ball's Y velocity
    pub vel_y: i32,
    /// Whether the last movement step flipped a velocity component
    pub changed_direction: bool,
}

/// Mathematical model of a ball, over unbounded integers.
pub ghost struct BallView {
    pub pos_x: int,
    pub pos_y: int,
    pub vel_x: int,
    pub vel_y: int,
    pub changed_direction: bool,
}

impl View for Ball {
    type V = BallView;

    open spec fn view(&self) -> BallView {
        BallView {
            pos_x: self.pos_x as int,
            pos_y: self.pos_y as int,
            vel_x: self.vel_x as int,
            vel_y: self.vel_y as int,
            changed_direction: self.changed_direction,
        }
    }
}

/// One movement step: the position advances by the velocity on each axis
/// independently, and a velocity component flips when its new position lies
/// beyond the field edge on that axis.
pub open spec fn ball_step(b: BallView) -> BallView {
    let pos_x = b.pos_x + b.vel_x;
    let pos_y = b.pos_y + b.vel_y;
    let bounce_x = pos_x > EDGE_RIGHT || pos_x < EDGE_LEFT;
    let bounce_y = pos_y > EDGE_TOP || pos_y < EDGE_BOTTOM;
    BallView {
        pos_x: pos_x,
        pos_y: pos_y,
        vel_x: if bounce_x { -b.vel_x } else { b.vel_x },
        vel_y: if bounce_y { -b.vel_y } else { b.vel_y },
        changed_direction: bounce_x || bounce_y,
    }
}

/// Whether a ball at height `ball_y` lies outside the span of a paddle whose
/// lower end sits at `paddle_pos`; both ends of the span count as a hit.
pub open spec fn spec_missed_paddle(ball_y: int, paddle_pos: int) -> bool {
    ball_y < paddle_pos || ball_y > paddle_pos + PADDLE_HEIGHT
}

impl Ball {
    /// Return a new ball at the (0, 0) position, with velocity of
    /// [`INITIAL_VELOCITY`] in both the x direction and the y direction.
    pub fn new() -> (r: Ball)
        ensures
            r == (Ball {
                pos_x: 0,
                pos_y: 0,
                vel_x: INITIAL_VELOCITY,
                vel_y: INITIAL_VELOCITY,
                changed_direction: false,
            }),
    {
        Ball { pos_x: 0, pos_y: 0, vel_x: INITIAL_VELOCITY, vel_y: INITIAL_VELOCITY, changed_direction: false }
    }

    /// Return true if the ball's Y position is outside a paddle's Y positions.
    /// This takes the [`PADDLE_HEIGHT`] into consideration.
    pub fn missed_paddle(&self, paddle_pos: i32) -> (r: bool)
        requires
            paddle_pos + PADDLE_HEIGHT <= i32::MAX,
        ensures
            r == spec_missed_paddle(self@.pos_y, paddle_pos as int),
    {
        self.pos_y < paddle_pos || self.pos_y > paddle_pos + PADDLE_HEIGHT
    }

    /// Reset the ball's position to the center of the field. The velocity is
    /// deliberately kept, so volleys after a score keep their direction.
    pub fn reset_position(&mut self)
        ensures
            final(self)@ == (BallView { pos_x: MIDDLE_POS_X as int, pos_y: MIDDLE_POS_Y as int, ..old(self)@ }),
    {
        self.pos_x = MIDDLE_POS_X;
        self.pos_y = MIDDLE_POS_Y;
    }

    /// Move the ball according to its velocity, as [`ball_step`] says: the
    /// x-velocity flips when the new x position passes [`EDGE_RIGHT`] or
    /// [`EDGE_LEFT`], the y-velocity flips when the new y position passes
    /// [`EDGE_TOP`] or [`EDGE_BOTTOM`], and `changed_direction` records
    /// whether any flip happened.
    pub fn perform_movement(&mut self)
        requires
            i32::MIN <= old(self)@.pos_x + old(self)@.vel_x <= i32::MAX,
            i32::MIN <= old(self)@.pos_y + old(self)@.vel_y <= i32::MAX,
            old(self).vel_x != i32::MIN,
            old(self).vel_y != i32::MIN,
        ensures
            final(self)@ == ball_step(old(self)@),
    {
        self.pos_x = self.pos_x + self.vel_x;
        self.pos_y = self.pos_y + self.vel_y;

        let mut bounced = false;
        if self.pos_x > EDGE_RIGHT || self.pos_x < EDGE_LEFT {
            self.vel_x = -self.vel_x;
            bounced = true;
        }
        if self.pos_y > EDGE_TOP || self.pos_y < EDGE_BOTTOM {
            self.vel_y = -self.vel_y;
            bounced = true;
        }
        self.changed_direction = bounced;
    }
}

/// The shape every reachable ball has: each velocity component is the initial
/// magnitude with a sign only, the position strays past an edge by at most
/// one velocity step, and a ball past an edge is already turned back toward
/// the field.
pub open spec fn wf_ball(b: BallView) -> bool {
    &&& (b.vel_x == INITIAL_VELOCITY || b.vel_x == -INITIAL_VELOCITY)
    &&& (b.vel_y == INITIAL_VELOCITY || b.vel_y == -INITIAL_VELOCITY)
    &&& EDGE_LEFT - INITIAL_VELOCITY <= b.pos_x <= EDGE_RIGHT + INITIAL_VELOCITY
    &&& EDGE_BOTTOM - INITIAL_VELOCITY <= b.pos_y <= EDGE_TOP + INITIAL_VELOCITY
    &&& (b.pos_x < EDGE_LEFT ==> b.vel_x > 0)
    &&& (b.pos_x > EDGE_RIGHT ==> b.vel_x < 0)
    &&& (b.pos_y < EDGE_BOTTOM ==> b.vel_y > 0)
    &&& (b.pos_y > EDGE_TOP ==> b.vel_y < 0)
}

/// Law: the movement rule preserves the well-formed shape, so the velocity
/// magnitude never changes and the position never strays further than one
/// step past an edge.
pub proof fn lemma_step_preserves_wf(b: BallView)
    requires
        wf_ball(b),
    ensures
        wf_ball(ball_step(b)),
{
}

/// Law: two movement steps that cross no boundary translate the ball by twice
/// its velocity and leave the velocity unchanged.
pub proof fn lemma_double_step_no_bounce(b: BallView)
    requires
        EDGE_LEFT <= b.pos_x + b.vel_x <= EDGE_RIGHT,
        EDGE_BOTTOM <= b.pos_y + b.vel_y <= EDGE_TOP,
        EDGE_LEFT <= b.pos_x + 2 * b.vel_x <= EDGE_RIGHT,
        EDGE_BOTTOM <= b.pos_y + 2 * b.vel_y <= EDGE_TOP,
    ensures
        ball_step(ball_step(b)).pos_x == b.pos_x + 2 * b.vel_x,
        ball_step(ball_step(b)).pos_y == b.pos_y + 2 * b.vel_y,
        ball_step(ball_step(b)).vel_x == b.vel_x,
        ball_step(ball_step(b)).vel_y == b.vel_y,
{
}

/// Law: a movement step flips the x-velocity exactly when the new x position
/// crosses a horizontal boundary, and the y-velocity exactly when the new y
/// position crosses a vertical boundary; the two axes are independent, so a
/// step that crosses both flips both.
pub proof fn lemma_bounce_independent(b: BallView)
    ensures
        ball_step(b).vel_x == (if b.pos_x + b.vel_x > EDGE_RIGHT || b.pos_x + b.vel_x < EDGE_LEFT {
            -b.vel_x
        } else {
            b.vel_x
        }),
        ball_step(b).vel_y == (if b.pos_y + b.vel_y > EDGE_TOP || b.pos_y + b.vel_y < EDGE_BOTTOM {
            -b.vel_y
        } else {
            b.vel_y
        }),
{
}

} // verus!
