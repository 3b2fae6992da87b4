//! A verified core for a two-paddle ball game.
//!
//! The crate holds the rules of play and nothing else: where things are, how
//! they move in one fixed tick, what the ball does when it meets a paddle or
//! a scoring zone, how the score is kept, and when a new ball is served.
//! Windowing, drawing and input polling belong to the program around it.
//!
//! All quantities are integers. Lengths are in world units of 10^-9 pixel and
//! times in nanoseconds, so that a speed of one pixel per second is one unit
//! per nanosecond and a tick of whole nanoseconds moves things exactly.

pub mod config;
pub mod entity;
pub mod game;
pub mod geometry;
pub mod laws;
pub mod motion;
pub mod paddle;
pub mod score;
pub mod timer;
