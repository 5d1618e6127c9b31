//! Beat-synchronised animation engine for an addressable RGB LED strip.
//!
//! Taps are turned into a tempo estimate, the tempo drives a bar counter,
//! and a set of patterns renders frames into disjoint regions of one
//! colour buffer, reacting to the beat at a chosen subdivision.

pub mod beat;
pub mod color;
pub mod control;
pub mod error;
pub mod patterns;
pub mod render;
pub mod transmit;
pub mod util;
