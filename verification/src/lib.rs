//! Ping-pong frame playback for sprite animations.
//!
//! An animation strip of `frame_count` cells is played forwards to its last
//! cell, then backwards to its first, and so on without end. This crate holds
//! the frame-stepping state machine and the proofs of how it behaves; drawing
//! and timing in seconds are left to the program that uses it.

pub mod cursor;
pub mod cycle;
pub mod playback;
