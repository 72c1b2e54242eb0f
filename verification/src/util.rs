//! Small helpers for reading integers out of byte slices.

use vstd::prelude::*;
use vstd::slice::slice_subrange;

verus! {

/// The little-endian value of the first four bytes of `bytes`.
pub open spec fn le_u32(bytes: Seq<u8>) -> int {
    bytes[0] + 0x100 * bytes[1] + 0x1_0000 * bytes[2] + 0x100_0000 * bytes[3]
}

/// Reads a little-endian 32-bit integer from the front of `input` and moves
/// `input` past it.
pub fn read_le_u32(input: &mut &[u8]) -> (value: u32)
    requires
        old(input)@.len() >= 4,
    ensures
        value == le_u32(old(input)@),
        final(input)@ == old(input)@.skip(4),
{
    let bytes: &[u8] = *input;
    let value: u32 = bytes[0] as u32 + 0x100 * (bytes[1] as u32) + 0x1_0000 * (bytes[2] as u32)
        + 0x100_0000 * (bytes[3] as u32);
    let rest = slice_subrange(bytes, 4, bytes.len());
    assert(rest@ =~= bytes@.skip(4));
    *input = rest;
    value
}

} // verus!
