//! Colours and occupancy bytes as the buffers hold them.

use vstd::prelude::*;

verus! {

/// A colour as four channels in the order red, green, blue, alpha.
///
/// Each channel is the bit pattern of an IEEE-754 single-precision number
/// between zero and one, so a host may read a colour buffer as floating
/// point in place, without any conversion.
pub type Rgba = [u32; 4];

/// Bit pattern of the channel value one.
pub const OPAQUE: u32 = 0x3F80_0000;

/// Bit pattern of the channel value zero.
pub const CLEAR: u32 = 0;

/// Occupancy byte of a cell: one when filled, zero when empty.
pub open spec fn occupancy(filled: bool) -> u8 {
    if filled {
        1u8
    } else {
        0u8
    }
}

/// Computes the occupancy byte of a cell.
pub fn occupancy_byte(filled: bool) -> (b: u8)
    ensures
        b == occupancy(filled),
{
    if filled {
        1u8
    } else {
        0u8
    }
}

} // verus!
