//! Simulation core of a two-paddle ball game: vector math and collision
//! response, the entity and behaviour model, the per-tick play-area step and
//! the session rules (input, scripted opponent, scoring, win detection).
//!
//! All continuous quantities are fixed-point integers: lengths and speeds are
//! counted in thousandths of a pixel, angles in whole degrees.

pub mod vectors;
pub mod objects;
pub mod behaviors;
pub mod factory;
pub mod play_area;
pub mod layout;
pub mod controller;
pub mod drawable;
pub mod color;
pub mod rectangle;
pub mod line;
pub mod render;
pub mod paint_queue;
