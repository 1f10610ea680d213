//! Low-level wire helpers shared by the frame decoders.

use vstd::prelude::*;

verus! {

/// The unsigned sixteen-bit value carried little-endian by two wire bytes.
pub open spec fn spec_le16(lo: u8, hi: u8) -> u16 {
    (lo + 256 * hi) as u16
}

/// Reads the little-endian sixteen-bit value of two wire bytes.
pub fn le16(lo: u8, hi: u8) -> (r: u16)
    ensures
        r == spec_le16(lo, hi),
{
    lo as u16 + 256 * (hi as u16)
}

} // verus!
