//! Device-control core for a two-piece heated-tobacco handset family.
//!
//! The library covers the pure heart of the client: the binary frame codec
//! that turns response buffers into typed values (firmware versions,
//! diagnostic counters, product identifiers), the fixed command catalog,
//! the diagnostic accumulator that merges counters across several response
//! frames, and the staged initializer that assembles a device handle.
//! The wireless transport itself is an external collaborator and stays
//! outside this crate.

pub mod cmds;
pub mod commands;
pub mod console;
pub mod device;
pub mod diagnosis;
pub mod error;
pub mod firmware;
pub mod identifier;
pub mod initializer;
pub mod model;
pub mod telemetry;
pub mod wire;
