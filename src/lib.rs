//! Frame synchronisation and scene composition for a 2D motorbike game.
//!
//! World coordinates, texture coordinates and depth biases are fixed-point
//! integers with `FIXED_ONE` steps per unit, so that every formula below is
//! exact and proved free of overflow.
pub mod atlas;
pub mod compose;
pub mod fixed;
pub mod frame;
pub mod scene;
pub mod viewport;
