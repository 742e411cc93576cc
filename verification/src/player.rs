//! The two players and the phase of a match.

use vstd::prelude::*;

verus! {

/// One of the two players, named after the side of the arena that they defend.
#[derive(Clone, Copy, Debug, PartialEq, Eq, Structural)]
pub enum Player {
    /// The human, whose paddle follows the pointer.
    Left,
    /// The scripted opponent.
    Right,
}

impl Player {
    /// The player on the other side.
    pub open spec fn opponent_spec(self) -> Player {
        match self {
            Player::Left => Player::Right,
            Player::Right => Player::Left,
        }
    }

    /// The player on the other side.
    #[verifier::when_used_as_spec(opponent_spec)]
    pub fn opponent(self) -> (other: Player)
        ensures
            other == self.opponent_spec(),
    {
        match self {
            Player::Left => Player::Right,
            Player::Right => Player::Left,
        }
    }

    /// The number under which the player is announced: 1 for the left, 2 for
    /// the right.
    pub open spec fn number_spec(self) -> u8 {
        match self {
            Player::Left => 1u8,
            Player::Right => 2u8,
        }
    }

    /// The number under which the player is announced.
    #[verifier::when_used_as_spec(number_spec)]
    pub fn number(self) -> (n: u8)
        ensures
            n == self.number_spec(),
    {
        match self {
            Player::Left => 1,
            Player::Right => 2,
        }
    }
}

/// The coarse state of a match.
#[derive(Clone, Copy, Debug, PartialEq, Eq, Structural)]
pub enum Phase {
    /// The ball is in play.
    Playing,
    /// One player has reached the winning score; everything is frozen until
    /// a restart.
    GameOver,
}

} // verus!
