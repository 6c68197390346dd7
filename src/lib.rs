//! Simulation core of a falling-block puzzle game: pieces as block offsets around a
//! pivot, their rotation, their fall under gravity until they reach the floor, and the
//! mapping of grid cells to canvas points.

pub mod block;
pub mod control;
pub mod debug;
pub mod game;
pub mod gravity;
pub mod grid;
pub mod piece;
pub mod util;
