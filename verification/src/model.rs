//! A match as the contracts see it: the score, the phase, the place within
//! the current tick, and what each report of the driver makes of them.
//!
//! A tick is played in five steps, always in the same order: the ball and
//! the left paddle advance, the opponent steers, the left side is looked at,
//! then the right side, then the walls. The later steps are not skipped when
//! an earlier one found something: a fast ball can be returned on the right
//! in the tick in which it was served after a miss on the left.

use vstd::prelude::*;
use crate::player::Phase;
use crate::player::Player;
use crate::sighting::SideOutcome;
use crate::sighting::Sighting;

verus! {

/// The score at which a match is won.
pub const WINNING_SCORE: u8 = 5;

/// Where a simulation stands within a tick.
#[derive(Clone, Copy, Debug, PartialEq, Eq, Structural)]
pub enum Stage {
    /// Between two ticks.
    Idle,
    /// The ball has advanced; the opponent steers next.
    Opponent,
    /// The left side is looked at next.
    LeftSide,
    /// The right side is looked at next.
    RightSide,
    /// The walls are looked at next.
    Walls,
}

/// What the driver has to do in answer to a step or to a click.
#[derive(Clone, Copy, Debug, PartialEq, Eq, Structural)]
pub enum Command {
    /// Leave the ball and the paddles as they are.
    Nothing,
    /// Move the ball by its velocity times the length of the tick, and put
    /// the left paddle where the pointer was last seen.
    Advance,
    /// Move the right paddle down, by its speed times the length of the
    /// tick.
    OpponentDown,
    /// Move the right paddle up, by its speed times the length of the tick.
    OpponentUp,
    /// The paddle of this player returns the ball: negate the horizontal
    /// velocity, and make the vertical velocity the spin factor times the
    /// distance from the paddle's centre to the ball's.
    Bounce(Player),
    /// Put the ball in the middle of the arena and negate both components
    /// of its velocity.
    Serve,
    /// Negate the vertical velocity.
    FlipVertical,
}

/// A simulation as the contracts see it.
pub struct SimulationView {
    /// The points of the left player.
    pub score_left: nat,
    /// The points of the right player.
    pub score_right: nat,
    /// The points that win the match.
    pub winning_score: nat,
    /// Whether the match is still played.
    pub phase: Phase,
    /// The place within the current tick.
    pub stage: Stage,
}

impl SimulationView {
    /// A fresh match: no points, the ball in play, no tick begun.
    pub open spec fn initial() -> SimulationView {
        SimulationView {
            score_left: 0,
            score_right: 0,
            winning_score: WINNING_SCORE as nat,
            phase: Phase::Playing,
            stage: Stage::Idle,
        }
    }

    /// The points of `player`.
    pub open spec fn score_of(self, player: Player) -> nat {
        match player {
            Player::Left => self.score_left,
            Player::Right => self.score_right,
        }
    }

    /// One of the two players has reached the winning score.
    pub open spec fn decided(self) -> bool {
        self.score_left == self.winning_score || self.score_right == self.winning_score
    }

    /// `player` has not yet reached the winning score.
    pub open spec fn can_score(self, player: Player) -> bool {
        self.score_of(player) < self.winning_score
    }

    /// What holds of every simulation: no score exceeds the winning
    /// score, the match is over exactly when a score has reached it, and a
    /// player who may still be given a point in the current tick has room for
    /// it.
    pub open spec fn wf(self) -> bool {
        &&& 0 < self.winning_score
        &&& self.score_left <= self.winning_score
        &&& self.score_right <= self.winning_score
        &&& (self.phase == Phase::GameOver <==> self.decided())
        &&& (self.stage == Stage::Opponent || self.stage == Stage::LeftSide
            ==> self.phase == Phase::Playing)
        &&& (self.stage == Stage::RightSide ==> self.can_score(Player::Left))
    }

    /// The winner: none while the match is played; after it the left player
    /// if they hold the winning score, else the right one.
    pub open spec fn winner(self) -> Option<Player> {
        if self.phase == Phase::Playing {
            None
        } else if self.score_left == self.winning_score {
            Some(Player::Left)
        } else {
            Some(Player::Right)
        }
    }

    /// The simulation after `player` was given a point: their score is one
    /// higher, and the match is over if a score now equals the winning score.
    pub open spec fn after_point(self, player: Player) -> SimulationView {
        let left = if player == Player::Left { self.score_left + 1 } else { self.score_left };
        let right = if player == Player::Right { self.score_right + 1 } else { self.score_right };
        SimulationView {
            score_left: left,
            score_right: right,
            phase: if left == self.winning_score || right == self.winning_score {
                Phase::GameOver
            } else {
                self.phase
            },
            ..self
        }
    }

    /// The simulation after a reset: no points, the ball in play. The place
    /// within the tick stays.
    pub open spec fn after_reset(self) -> SimulationView {
        SimulationView { score_left: 0, score_right: 0, phase: Phase::Playing, ..self }
    }

    /// The simulation after a click on restart: reset if the match was over,
    /// else as before.
    pub open spec fn after_restart_click(self) -> SimulationView {
        if self.phase == Phase::GameOver {
            self.after_reset()
        } else {
            self
        }
    }

    /// The answer to a click on restart.
    pub open spec fn restart_command(self) -> Command {
        if self.phase == Phase::GameOver {
            Command::Serve
        } else {
            Command::Nothing
        }
    }

    /// The stage that follows `self.stage` in a tick that is played.
    pub open spec fn next_stage(self) -> Stage {
        match self.stage {
            Stage::Idle => Stage::Opponent,
            Stage::Opponent => Stage::LeftSide,
            Stage::LeftSide => Stage::RightSide,
            Stage::RightSide => Stage::Walls,
            Stage::Walls => Stage::Idle,
        }
    }

    /// The side that is looked at in this stage, if it is one of the two
    /// stages that look at a side.
    pub open spec fn side(self) -> Option<Player> {
        match self.stage {
            Stage::LeftSide => Some(Player::Left),
            Stage::RightSide => Some(Player::Right),
            _ => None,
        }
    }

    /// No tick begins while the match is over.
    pub open spec fn frozen(self) -> bool {
        self.stage == Stage::Idle && self.phase == Phase::GameOver
    }

    /// The answer to the report `seen`.
    pub open spec fn command(self, seen: Sighting) -> Command {
        match self.stage {
            Stage::Idle => if self.phase == Phase::GameOver {
                Command::Nothing
            } else {
                Command::Advance
            },
            Stage::Opponent => if seen.ball_below_opponent {
                Command::OpponentDown
            } else if seen.ball_above_opponent {
                Command::OpponentUp
            } else {
                Command::Nothing
            },
            Stage::LeftSide => Self::side_command(Player::Left, seen.left.outcome_spec()),
            Stage::RightSide => Self::side_command(Player::Right, seen.right.outcome_spec()),
            Stage::Walls => if seen.at_wall_spec() {
                Command::FlipVertical
            } else {
                Command::Nothing
            },
        }
    }

    /// The answer to what happened at the side that `side` defends.
    pub open spec fn side_command(side: Player, outcome: SideOutcome) -> Command {
        match outcome {
            SideOutcome::Clear => Command::Nothing,
            SideOutcome::Bounce => Command::Bounce(side),
            SideOutcome::Miss => Command::Serve,
        }
    }

    /// The simulation after the report `seen`. While the match is over no
    /// tick begins. Otherwise the stage moves on by one, and a miss gives a
    /// point to the player on the other side.
    pub open spec fn after_step(self, seen: Sighting) -> SimulationView {
        if self.frozen() {
            self
        } else {
            let moved = SimulationView { stage: self.next_stage(), ..self };
            match self.side() {
                Some(side) => if seen.contact_spec(side).outcome_spec() == SideOutcome::Miss {
                    moved.after_point(side.opponent_spec())
                } else {
                    moved
                },
                None => moved,
            }
        }
    }
}

} // verus!
