//! A two-player Pong simulation on an integer playfield: box overlap
//! classification, ball integration, bounces, scoring and the pause/reset
//! cycle, each proved against its contract.
pub mod geometry;
pub mod game;
