//! A toroidal Game of Life engine: a fixed-size grid of two-state cells that
//! evolves generation by generation under Conway's rule.
pub mod cell;
pub mod greeting;
pub mod rules;
pub mod universe;
pub mod text;
pub mod lemmas;

pub use cell::Cell;
pub use universe::Universe;
