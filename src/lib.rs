//! A ball falling through a triangular board of numbered bubbles.
//!
//! Every length in this crate is an integer number of half-pixels, so that a
//! row centred on a field of odd width keeps its exact position. Field sizes
//! are given in whole pixels.
pub mod geometry;
pub mod ball;
pub mod bubble;
pub mod sim;
mod rng;
