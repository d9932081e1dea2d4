//! A two-player region-capture simulation on an integer lattice.
//!
//! Two circular players bounce around a square arena whose floor is a grid of
//! cells. A player that touches a cell of the other colour captures it and is
//! reflected; the walls reflect unconditionally. Every coordinate is an
//! integer number of sub-units, so a run is exactly reproducible.

pub mod arena;
pub mod collision;
pub mod game;
pub mod geometry;
pub mod grid;
pub mod navigation;
pub mod player;
