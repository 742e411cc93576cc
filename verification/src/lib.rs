//! The rules of a two-player ball-and-paddle game.
//!
//! This crate decides; it does no arithmetic on coordinates. A driver keeps
//! the ball and the paddles, moves them, and reports what it sees of them as
//! plain truth values. The [`Simulation`] keeps the score, the phase of the
//! match and the place within the current tick, and answers each report with
//! the one thing the driver has to do next.

pub mod input;
pub mod laws;
pub mod model;
pub mod player;
pub mod sighting;
pub mod simulation;

pub use input::Button;
pub use input::ButtonChange;
pub use input::ButtonState;
pub use laws::Event;
pub use model::Command;
pub use model::SimulationView;
pub use model::Stage;
pub use model::WINNING_SCORE;
pub use player::Phase;
pub use player::Player;
pub use sighting::SideContact;
pub use sighting::SideOutcome;
pub use sighting::Sighting;
pub use simulation::Simulation;
