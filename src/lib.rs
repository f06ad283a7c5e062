//! Gameplay core of a small Pong simulation, and of two toy scenes, over an
//! integer fixed-point model of the playfield.
//!
//! Coordinates are integers counted in `UNITS_PER_PIXEL` sub-pixel steps, so
//! every speed the game uses (including the AI's nine tenths of the player's
//! paddle speed) is exact.
use vstd::prelude::*;

pub mod geometry;
pub mod ball;
pub mod gutter;
pub mod paddle;
pub mod scorer;
pub mod game;
pub mod bounce;
pub mod walker;

verus! {

} // verus!
