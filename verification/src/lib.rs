//! Verified simulation core of a small arcade shooter: a ship rotates and
//! thrusts inside a bounded 2D arena with toroidal (wrap-around) edges, fires
//! bullets, and destroys drifting asteroids that split into smaller fragments
//! when shot.
//!
//! All world quantities are fixed-point integers with 1000 units per world
//! unit, so the whole simulation is exact integer arithmetic.

pub mod asteroid;
pub mod bullet;
pub mod collision;
pub mod heading;
pub mod math;
pub mod player;
pub mod position;
mod rng;
pub mod state;
pub mod velocity;
pub mod world;
