//! Simulation core of a two-paddle ball game.
//!
//! All coordinates are fixed-point: an `i64` counts subunits, with
//! [`geometry::UNIT`] subunits to one world unit. Each module pairs its
//! executable state with a mathematical model over unbounded integers, and
//! every system's contract states exactly how it transforms that model.

pub mod geometry;
pub mod entities;
pub mod collision;
pub mod world;
pub mod systems;
pub mod scoring;
pub mod laws;
