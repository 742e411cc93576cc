//! What the driver reports of the ball and the paddles: the outcome of each
//! comparison that the rules depend on, taken on the positions as they are at
//! the moment of the report.

use vstd::prelude::*;

verus! {

/// What is seen of the ball at one side of the arena.
///
/// The leading edge is the point of the ball nearest that side: the centre
/// less the radius on the left, the centre plus the radius on the right.
#[derive(Clone, Copy, Debug, PartialEq, Eq, Structural)]
pub struct SideContact {
    /// The leading edge lies strictly beyond the plane of the paddle's face.
    pub past_paddle_face: bool,
    /// The ball's centre is level with the paddle's top end or below it: its
    /// vertical coordinate is no less than the paddle's centre less half its
    /// height.
    pub below_paddle_top: bool,
    /// The ball's centre is level with the paddle's bottom end or above it:
    /// its vertical coordinate is no more than the paddle's centre plus half
    /// its height.
    pub above_paddle_bottom: bool,
    /// The leading edge lies at or beyond the arena's boundary on that side.
    pub past_boundary: bool,
}

/// What happens to the ball at one side of the arena.
#[derive(Clone, Copy, Debug, PartialEq, Eq, Structural)]
pub enum SideOutcome {
    /// The ball touches neither the paddle nor the boundary.
    Clear,
    /// The paddle returns the ball.
    Bounce,
    /// The ball leaves the arena: the player on the other side scores.
    Miss,
}

impl SideContact {
    /// The ball touches the paddle: its leading edge is past the face, and
    /// its centre lies within the paddle's extent, both ends included.
    pub open spec fn on_paddle(self) -> bool {
        self.past_paddle_face && self.below_paddle_top && self.above_paddle_bottom
    }

    /// The paddle is looked at first: a ball on the paddle bounces, wherever
    /// the boundary is. Only a ball that is not on the paddle can be missed.
    pub open spec fn outcome_spec(self) -> SideOutcome {
        if self.on_paddle() {
            SideOutcome::Bounce
        } else if self.past_boundary {
            SideOutcome::Miss
        } else {
            SideOutcome::Clear
        }
    }

    /// What happens to the ball at the side where `self` was seen.
    #[verifier::when_used_as_spec(outcome_spec)]
    pub fn outcome(self) -> (out: SideOutcome)
        ensures
            out == self.outcome_spec(),
    {
        if self.past_paddle_face && self.below_paddle_top && self.above_paddle_bottom {
            SideOutcome::Bounce
        } else if self.past_boundary {
            SideOutcome::Miss
        } else {
            SideOutcome::Clear
        }
    }
}

/// All that the rules need to know of the positions at one moment.
///
/// Vertical coordinates grow downwards, from the top wall at zero to the
/// bottom wall at the arena's height.
#[derive(Clone, Copy, Debug, PartialEq, Eq, Structural)]
pub struct Sighting {
    /// The ball's centre is strictly below the centre of the right paddle.
    pub ball_below_opponent: bool,
    /// The ball's centre is strictly above the centre of the right paddle.
    pub ball_above_opponent: bool,
    /// The ball at the left side.
    pub left: SideContact,
    /// The ball at the right side.
    pub right: SideContact,
    /// The ball reaches the bottom wall: its centre plus its radius is at or
    /// beyond the arena's height.
    pub at_bottom_wall: bool,
    /// The ball reaches the top wall: its centre less its radius is at or
    /// below zero.
    pub at_top_wall: bool,
}

impl Sighting {
    /// The contact seen at the side that `side` defends.
    pub open spec fn contact_spec(self, side: crate::player::Player) -> SideContact {
        match side {
            crate::player::Player::Left => self.left,
            crate::player::Player::Right => self.right,
        }
    }

    /// The ball touches one of the two walls.
    pub open spec fn at_wall_spec(self) -> bool {
        self.at_bottom_wall || self.at_top_wall
    }

    /// The ball touches one of the two walls.
    #[verifier::when_used_as_spec(at_wall_spec)]
    pub fn at_wall(self) -> (hit: bool)
        ensures
            hit == self.at_wall_spec(),
    {
        self.at_bottom_wall || self.at_top_wall
    }
}

} // verus!
