//! The stand-alone telemetry reading.
//!
//! A telemetry response carries the same discriminator as the telemetry
//! diagnosis fragment; this type keeps only the total usage count of it.

use vstd::prelude::*;

use crate::error::IqosError;
use crate::wire::{le16, spec_le16};

verus! {

/// Request frame that asks for a telemetry response.
pub const LOAD_TELEMETRY_SIGNAL: [u8; 8] = [0x00, 0xC9, 0x10, 0x02, 0x01, 0x01, 0x75, 0xD6];

/// Request frame that asks for a timestamp response.
pub const LOAD_TIMESTAMP_SIGNAL: [u8; 8] = [0x00, 0xC0, 0x10, 0x02, 0x00, 0x04, 0x38, 0xEF];

/// A telemetry response reads the usage count at offsets 10 and 11.
pub const TELEMETRY_MIN_LEN: usize = 12;

/// A telemetry reading: the total usage count and the usage period.
#[derive(Debug, Clone, Copy, PartialEq, Eq, Structural)]
pub struct Telemetry {
    pub total_usage_count: u16,
    pub usage_period: u8,
}

/// What decoding a telemetry response yields.
pub open spec fn spec_decode_telemetry(bytes: Seq<u8>) -> Result<Telemetry, IqosError> {
    if bytes.len() < TELEMETRY_MIN_LEN {
        Err(IqosError::FrameTooShort { expected_min: TELEMETRY_MIN_LEN })
    } else if bytes[2] != 0x90 || bytes[3] != 0x22 {
        Err(IqosError::ProtocolMismatch)
    } else {
        Ok(Telemetry { total_usage_count: spec_le16(bytes[10], bytes[11]), usage_period: 0 })
    }
}

impl Telemetry {
    /// Creates an empty reading.
    pub fn new() -> (r: Self)
        ensures
            r.total_usage_count == 0,
            r.usage_period == 0,
    {
        Telemetry { total_usage_count: 0, usage_period: 0 }
    }

    /// Decodes a telemetry response.
    ///
    /// Fails with a length condition on a buffer too short to carry the
    /// usage count, and with a protocol mismatch when the discriminator is
    /// not the telemetry one; on success the total usage count is the
    /// little-endian value at offsets 10 and 11.
    pub fn from_bytes(bytes: &[u8]) -> (r: Result<Self, IqosError>)
        ensures
            r == spec_decode_telemetry(bytes@),
    {
        if bytes.len() < TELEMETRY_MIN_LEN {
            return Err(IqosError::FrameTooShort { expected_min: TELEMETRY_MIN_LEN });
        }
        if bytes[2] != 0x90 || bytes[3] != 0x22 {
            return Err(IqosError::ProtocolMismatch);
        }
        Ok(Telemetry { total_usage_count: le16(bytes[10], bytes[11]), usage_period: 0 })
    }
}

} // verus!
