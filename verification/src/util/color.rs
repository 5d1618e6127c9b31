//! The colour type under its older path.

pub use crate::color::Rgb;
