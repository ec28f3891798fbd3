//! A small top-down game simulation: square entities that move along their
//! heading, turn with a controller axis and wrap around a torus.
//!
//! Every quantity is a fixed-point integer (see `fixed::SCALE`); rotations are
//! in 2^-32 of a full turn and accumulate without being folded into one turn.
//! The cosine and sine of a rotation come from the caller as a
//! `player::Heading`.
use vstd::prelude::*;

pub mod config;
pub mod fixed;
pub mod geometry;
pub mod input;
pub mod player;
pub mod theorems;
pub mod world;

verus! {

} // verus!
