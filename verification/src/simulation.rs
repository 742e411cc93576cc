//! The simulation that a driver holds and steps through.
//!
//! Before each step the driver reports what it sees, and
//! [`Simulation::step`] answers with one [`Command`]. The tick is over when
//! the simulation is between two ticks again.

use vstd::prelude::*;
use crate::input::ButtonChange;
use crate::model::Command;
use crate::model::SimulationView;
use crate::model::Stage;
use crate::model::WINNING_SCORE;
use crate::player::Phase;
use crate::player::Player;
use crate::sighting::SideOutcome;
use crate::sighting::Sighting;

verus! {

/// The score, the phase and the place within the tick of one match.
#[derive(Clone, Copy, Debug, PartialEq, Eq, Structural)]
pub struct Simulation {
    score_left: u8,
    score_right: u8,
    winning_score: u8,
    phase: Phase,
    stage: Stage,
}

impl View for Simulation {
    type V = SimulationView;

    closed spec fn view(&self) -> SimulationView {
        SimulationView {
            score_left: self.score_left as nat,
            score_right: self.score_right as nat,
            winning_score: self.winning_score as nat,
            phase: self.phase,
            stage: self.stage,
        }
    }
}

impl Simulation {
    /// Every value of the type is well-formed.
    #[verifier::type_invariant]
    closed spec fn sound(self) -> bool {
        self@.wf()
    }

    /// A fresh match.
    pub fn new() -> (sim: Simulation)
        ensures
            sim@ == SimulationView::initial(),
            sim@.wf(),
    {
        Simulation {
            score_left: 0,
            score_right: 0,
            winning_score: WINNING_SCORE,
            phase: Phase::Playing,
            stage: Stage::Idle,
        }
    }

    /// The points of the left player.
    pub fn score_left(&self) -> (points: u8)
        ensures
            points == self@.score_left,
    {
        self.score_left
    }

    /// The points of the right player.
    pub fn score_right(&self) -> (points: u8)
        ensures
            points == self@.score_right,
    {
        self.score_right
    }

    /// The points of `player`.
    pub fn score_of(&self, player: Player) -> (points: u8)
        ensures
            points == self@.score_of(player),
    {
        match player {
            Player::Left => self.score_left,
            Player::Right => self.score_right,
        }
    }

    /// The points that win the match.
    pub fn winning_score(&self) -> (points: u8)
        ensures
            points == self@.winning_score,
    {
        self.winning_score
    }

    /// Whether the match is still played.
    pub fn phase(&self) -> (phase: Phase)
        ensures
            phase == self@.phase,
    {
        self.phase
    }

    /// The place within the current tick.
    pub fn stage(&self) -> (stage: Stage)
        ensures
            stage == self@.stage,
    {
        self.stage
    }

    /// Whether `player` has not yet reached the winning score.
    pub fn can_score(&self, player: Player) -> (room: bool)
        ensures
            room == self@.can_score(player),
    {
        self.score_of(player) < self.winning_score
    }

    /// The winner, once the match is over.
    pub fn winner(&self) -> (who: Option<Player>)
        ensures
            who == self@.winner(),
    {
        if self.phase == Phase::Playing {
            None
        } else if self.score_left == self.winning_score {
            Some(Player::Left)
        } else {
            Some(Player::Right)
        }
    }

    /// Gives `player` a point between two ticks, and ends the match if a
    /// score then equals the winning score. The ball is to be served whether
    /// or not the match goes on.
    pub fn record_point(&mut self, player: Player) -> (command: Command)
        requires
            old(self)@.stage == Stage::Idle,
            old(self)@.can_score(player),
        ensures
            final(self)@ == old(self)@.after_point(player),
            final(self)@.wf(),
            command == Command::Serve,
    {
        proof {
            use_type_invariant(&*self);
        }
        *self = self.awarded(player);
        Command::Serve
    }

    /// Starts the match anew: no points, the ball in play. The ball is to be
    /// served; the paddles stay where they are.
    pub fn reset(&mut self) -> (command: Command)
        ensures
            final(self)@ == old(self)@.after_reset(),
            final(self)@.wf(),
            command == Command::Serve,
    {
        proof {
            use_type_invariant(&*self);
        }
        *self = Simulation {
            score_left: 0,
            score_right: 0,
            winning_score: self.winning_score,
            phase: Phase::Playing,
            stage: self.stage,
        };
        Command::Serve
    }

    /// A click on restart: resets the match if it was over, and is ignored
    /// while the match is played.
    pub fn handle_restart_click(&mut self) -> (command: Command)
        ensures
            final(self)@ == old(self)@.after_restart_click(),
            final(self)@.wf(),
            command == old(self)@.restart_command(),
    {
        proof {
            use_type_invariant(&*self);
        }
        if self.phase == Phase::GameOver {
            self.reset()
        } else {
            Command::Nothing
        }
    }

    /// A change of a button: a click on restart is handled as such, and
    /// every other change is ignored.
    pub fn handle_button(&mut self, change: ButtonChange) -> (command: Command)
        ensures
            final(self)@ == (if change.is_restart_click_spec() {
                old(self)@.after_restart_click()
            } else {
                old(self)@
            }),
            final(self)@.wf(),
            command == (if change.is_restart_click_spec() {
                old(self)@.restart_command()
            } else {
                Command::Nothing
            }),
    {
        proof {
            use_type_invariant(&*self);
        }
        if change.is_restart_click() {
            self.handle_restart_click()
        } else {
            Command::Nothing
        }
    }

    /// Plays one step of a tick on the report `seen`, and says what the
    /// driver has to do before it reports again. The tick is over when the
    /// stage is `Idle` after the step. While the match is over nothing
    /// changes and nothing is to be done.
    pub fn step(&mut self, seen: Sighting) -> (command: Command)
        ensures
            final(self)@ == old(self)@.after_step(seen),
            final(self)@.wf(),
            command == old(self)@.command(seen),
    {
        proof {
            use_type_invariant(&*self);
        }
        match self.stage {
            Stage::Idle => {
                if self.phase == Phase::GameOver {
                    Command::Nothing
                } else {
                    *self = self.at_stage(Stage::Opponent);
                    Command::Advance
                }
            },
            Stage::Opponent => {
                *self = self.at_stage(Stage::LeftSide);
                if seen.ball_below_opponent {
                    Command::OpponentDown
                } else if seen.ball_above_opponent {
                    Command::OpponentUp
                } else {
                    Command::Nothing
                }
            },
            Stage::LeftSide => {
                self.settle_side(Player::Left, Stage::RightSide, seen.left.outcome())
            },
            Stage::RightSide => {
                self.settle_side(Player::Right, Stage::Walls, seen.right.outcome())
            },
            Stage::Walls => {
                *self = self.at_stage(Stage::Idle);
                if seen.at_wall() {
                    Command::FlipVertical
                } else {
                    Command::Nothing
                }
            },
        }
    }

    /// Moves on to the stage `next` and acts on what happened at the side
    /// that `side` defends: a miss gives the other player a point.
    fn settle_side(&mut self, side: Player, next: Stage, outcome: SideOutcome) -> (command:
        Command)
        requires
            old(self)@.side() == Some(side),
            next == old(self)@.next_stage(),
        ensures
            final(self)@ == (if outcome == SideOutcome::Miss {
                (SimulationView { stage: next, ..old(self)@ }).after_point(side.opponent_spec())
            } else {
                (SimulationView { stage: next, ..old(self)@ })
            }),
            command == SimulationView::side_command(side, outcome),
    {
        proof {
            use_type_invariant(&*self);
        }
        match outcome {
            SideOutcome::Clear => {
                *self = self.at_stage(next);
                Command::Nothing
            },
            SideOutcome::Bounce => {
                *self = self.at_stage(next);
                Command::Bounce(side)
            },
            SideOutcome::Miss => {
                *self = self.at_stage(next).awarded(side.opponent());
                Command::Serve
            },
        }
    }

    /// This simulation at another place within the tick.
    fn at_stage(self, stage: Stage) -> (moved: Simulation)
        requires
            (SimulationView { stage: stage, ..self@ }).wf(),
        ensures
            moved@ == (SimulationView { stage: stage, ..self@ }),
    {
        Simulation {
            score_left: self.score_left,
            score_right: self.score_right,
            winning_score: self.winning_score,
            phase: self.phase,
            stage: stage,
        }
    }

    /// This simulation with one point more for `player`, and over if a
    /// score then equals the winning score.
    fn awarded(self, player: Player) -> (scored: Simulation)
        requires
            self@.after_point(player).wf(),
            self@.can_score(player),
        ensures
            scored@ == self@.after_point(player),
    {
        let left: u8 = match player {
            Player::Left => self.score_left + 1,
            Player::Right => self.score_left,
        };
        let right: u8 = match player {
            Player::Left => self.score_right,
            Player::Right => self.score_right + 1,
        };
        let over: bool = left == self.winning_score || right == self.winning_score;
        Simulation {
            score_left: left,
            score_right: right,
            winning_score: self.winning_score,
            phase: if over {
                Phase::GameOver
            } else {
                self.phase
            },
            stage: self.stage,
        }
    }
}

} // verus!
