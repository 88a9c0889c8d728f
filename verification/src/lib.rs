//! Simulation core of a two-paddle ball game on a 240x160 play field.
//!
//! All coordinates are signed 24.8 fixed-point numbers. The arithmetic is
//! done by `agb_fixnum`; the rules of the game built on it are verified.
//!
//! - `fixed`: the numbers, and what is taken on trust about their arithmetic.
//! - `geometry`: vectors, rectangles, and the test of a circle against a
//!   rectangle.
//! - `paddle`: a paddle, its clamped movement and its collision rectangle.
//! - `ball`: one tick of the ball against two paddles and the walls.
//! - `game`: a session, and the game in play or over.

pub mod ball;
pub mod fixed;
pub mod game;
pub mod geometry;
pub mod paddle;
