//! Small helpers shared by the patterns and the application.

pub mod ble;
pub mod color;
pub mod commands;
pub mod fill;
pub mod random;
