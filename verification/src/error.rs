//! Error taxonomy of the protocol core.
//!
//! `Configuration` reports a required prerequisite that is absent at the
//! point of use; `FrameTooShort` and `ProtocolMismatch` report a response
//! buffer that does not fit the expected shape; `Incomplete` reports a
//! diagnosis report that lacks a required counter.  Transport failures are
//! surfaced by the unverified transport layer and never constructed here.

use vstd::prelude::*;

verus! {

/// A mandatory field of the device initializer that was never populated.
#[derive(Debug, Clone, Copy, PartialEq, Eq, Structural)]
pub enum MissingField {
    Peripheral,
    Model,
    SerialNumber,
    BatteryCharacteristic,
    ControlCharacteristic,
    FirmwareVersion,
}

/// A failure of the protocol core.
#[derive(Debug, Clone, Copy, PartialEq, Eq, Structural)]
pub enum IqosError {
    /// A required prerequisite is absent; names the missing field.
    Configuration(MissingField),
    /// A response buffer is shorter than the minimum its shape demands.
    FrameTooShort { expected_min: usize },
    /// A response buffer does not carry the header expected for its kind.
    ProtocolMismatch,
    /// A diagnosis report lacks a required counter.
    Incomplete,
}

} // verus!
