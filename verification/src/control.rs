//! Remote controls.

pub mod ir;
