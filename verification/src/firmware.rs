//! Firmware-version frames.
//!
//! A firmware version travels in a response frame with a four-byte header
//! `[0x00, tag, 0x88, 0x00]`, where the tag byte discriminates the stick
//! ("vape") kind from the holder kind, and the four version fields at the
//! fixed offsets 6..=9.

use vstd::prelude::*;

use crate::error::IqosError;

verus! {

/// Request frame that asks the stick for its firmware version.
pub const LOAD_STICK_FIRMWARE_VERSION_SIGNAL: [u8; 7] = [0x00, 0xC0, 0x00, 0x00, 0x00, 0x00, 0x00];

/// Request frame that asks the holder for its firmware version.
pub const LOAD_HOLDER_FIRMWARE_VERSION_SIGNAL: [u8; 7] = [0x00, 0xC9, 0x00, 0x00, 0x00, 0x00, 0x00];

/// The two firmware kinds; each is requested with its own command frame and
/// validated against its own header tag byte.
#[derive(Debug, Clone, Copy, PartialEq, Eq, Structural)]
pub enum FirmwareKind {
    Vape,
    Holder,
}

/// The header tag byte that discriminates a firmware response of the given kind.
pub open spec fn spec_kind_tag(kind: FirmwareKind) -> u8 {
    match kind {
        FirmwareKind::Vape => 0xC0,
        FirmwareKind::Holder => 0x08,
    }
}

impl FirmwareKind {
    /// The header tag byte of this kind.
    pub fn tag(&self) -> (r: u8)
        ensures
            r == spec_kind_tag(*self),
    {
        match self {
            FirmwareKind::Vape => 0xC0,
            FirmwareKind::Holder => 0x08,
        }
    }
}

/// An ordered four-field firmware version, created only by decoding a
/// response frame.
#[derive(Debug, Clone, Copy, PartialEq, Eq, Structural)]
pub struct FirmwareVersion {
    pub major: u8,
    pub minor: u8,
    pub patch: u8,
    pub year: u8,
}

/// A firmware response frame must carry at least the header and the four
/// version fields, the last of which sits at offset 9.
pub const FIRMWARE_FRAME_MIN_LEN: usize = 10;

/// The four-byte header of a firmware response of the given kind matches.
pub open spec fn spec_firmware_header_ok(bytes: Seq<u8>, kind: FirmwareKind) -> bool {
    &&& bytes[0] == 0x00
    &&& bytes[1] == spec_kind_tag(kind)
    &&& bytes[2] == 0x88
    &&& bytes[3] == 0x00
}

/// What decoding a firmware response frame yields.
pub open spec fn spec_decode_firmware(bytes: Seq<u8>, kind: FirmwareKind) -> Result<
    FirmwareVersion,
    IqosError,
> {
    if bytes.len() < FIRMWARE_FRAME_MIN_LEN {
        Err(IqosError::FrameTooShort { expected_min: FIRMWARE_FRAME_MIN_LEN })
    } else if !spec_firmware_header_ok(bytes, kind) {
        Err(IqosError::ProtocolMismatch)
    } else {
        Ok(
            FirmwareVersion {
                major: bytes[6],
                minor: bytes[7],
                patch: bytes[8],
                year: bytes[9],
            },
        )
    }
}

impl Default for FirmwareVersion {
    /// The all-zero version, the value before any response populated it.
    fn default() -> (r: Self)
        ensures
            r == (FirmwareVersion { major: 0, minor: 0, patch: 0, year: 0 }),
    {
        FirmwareVersion { major: 0, minor: 0, patch: 0, year: 0 }
    }
}

impl FirmwareVersion {
    /// Decodes a firmware response frame of the given kind.
    ///
    /// Fails with a length condition on any buffer shorter than the frame
    /// minimum, and with a protocol mismatch when the four-byte header does
    /// not name the expected kind; on success the four version fields are
    /// read at the fixed offsets 6..=9.
    pub fn from_bytes(bytes: &[u8], kind: FirmwareKind) -> (r: Result<Self, IqosError>)
        ensures
            r == spec_decode_firmware(bytes@, kind),
    {
        if bytes.len() < FIRMWARE_FRAME_MIN_LEN {
            return Err(IqosError::FrameTooShort { expected_min: FIRMWARE_FRAME_MIN_LEN });
        }
        if bytes[0] != 0x00 || bytes[1] != kind.tag() || bytes[2] != 0x88 || bytes[3] != 0x00 {
            return Err(IqosError::ProtocolMismatch);
        }
        Ok(
            FirmwareVersion {
                major: bytes[6],
                minor: bytes[7],
                patch: bytes[8],
                year: bytes[9],
            },
        )
    }
}

/// Round trip of the firmware codec: a frame whose header names the kind and
/// whose length admits the four fields decodes to exactly the field bytes at
/// offsets 6..=9, whatever the rest of the frame holds; and a frame with any
/// mismatched header byte is rejected as a protocol mismatch regardless of
/// the field bytes.
pub proof fn lemma_firmware_decode_roundtrip(bytes: Seq<u8>, kind: FirmwareKind)
    requires
        bytes.len() >= FIRMWARE_FRAME_MIN_LEN,
    ensures
        spec_firmware_header_ok(bytes, kind) ==> spec_decode_firmware(bytes, kind) == Ok::<
            FirmwareVersion,
            IqosError,
        >(
            FirmwareVersion {
                major: bytes[6],
                minor: bytes[7],
                patch: bytes[8],
                year: bytes[9],
            },
        ),
        !spec_firmware_header_ok(bytes, kind) ==> spec_decode_firmware(bytes, kind) == Err::<
            FirmwareVersion,
            IqosError,
        >(IqosError::ProtocolMismatch),
{
}

} // verus!
