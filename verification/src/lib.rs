//! Gameplay logic for a small arcade game: a hose sprays fish projectiles
//! into moving carts; a cart that fills past its capacity breaks, a cart
//! that reaches the finish line scores.
//!
//! The surrounding game engine (rendering, physics, input) drives a frame
//! loop; every decision that loop makes is a verified function here, working
//! on plain values: world coordinates as integers in thousandths of a world
//! unit, time as integer microseconds.

pub mod player;
pub mod scoring;
pub mod spawner;
pub mod text;
pub mod timer;
pub mod world;
