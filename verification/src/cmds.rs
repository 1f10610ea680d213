//! The console commands this crate describes.

pub mod diagnosis;
pub mod telemetry;
