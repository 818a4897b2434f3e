//! Verified core of a single-player grid snake game.
//!
//! The simulation state machine (snake body, food placement, direction
//! buffering, collision and termination) lives here, fully verified and
//! decoupled from presentation, input and persistence, which an embedding
//! supplies around it.

pub mod game;
pub mod geometry;
pub mod random;
pub mod render;
