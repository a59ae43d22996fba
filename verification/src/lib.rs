//! Verified core of a minimal snake game.
//!
//! The snake is a trail of grid coordinates that grows by one cell per
//! simulation tick in the current heading. This crate holds the game rules:
//! the movement update, the key-to-heading mapping, the fixed-timestep
//! accumulator, and the pure projection of the state to draw commands.
//! Window creation, event dispatch and the actual drawing belong to a driver
//! outside the crate.

pub mod direction;
pub mod render;
pub mod state;
pub mod timing;
