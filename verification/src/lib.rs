//! A rover mission simulator on a toroidal planet grid.
//!
//! The planet is a rectangular grid whose edges wrap around. A rover stands
//! on a grid cell, facing one of the four cardinal directions, and obeys a
//! string of single-character commands: turn left or right, move forward or
//! backward. Moving onto an obstacle aborts the mission and reports the last
//! safe position. The crate also parses planet dimensions, obstacle lists,
//! rover start states and command strings from their textual forms.

pub mod domain;
pub mod mission;
pub mod parse;
pub mod text;

pub use domain::Command;
pub use domain::Direction;
pub use domain::MissionError;
pub use domain::Planet;
pub use domain::Position;
pub use domain::Rover;
pub use domain::execute;
pub use mission::execute_commands;
pub use parse::parse_commands;
pub use parse::parse_dimensions;
pub use parse::parse_direction;
pub use parse::parse_obstacles;
pub use parse::parse_planet;
pub use parse::parse_position;
pub use parse::parse_rover;
