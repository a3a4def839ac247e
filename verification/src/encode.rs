//! Byte-exact field encoding for content hashing.
//!
//! The concatenation order and the fixed-width little-endian layout of
//! numeric fields are part of the wire contract: two implementations that
//! need to agree on identity keys must hash exactly these bytes.

use vstd::bytes::spec_u64_to_le_bytes;
use vstd::bytes::u64_to_le_bytes;
use vstd::prelude::*;
use vstd::slice::slice_to_vec;

verus! {

/// The sixteen little-endian bytes of an unsigned 128-bit value: the low
/// eight bytes first, then the high eight.
pub open spec fn spec_u128_le(x: u128) -> Seq<u8> {
    spec_u64_to_le_bytes((x % 0x1_0000_0000_0000_0000) as u64)
        + spec_u64_to_le_bytes((x / 0x1_0000_0000_0000_0000) as u64)
}

/// Appends raw bytes to an encoding buffer.
pub fn push_bytes(buf: &mut Vec<u8>, bytes: &[u8])
    ensures
        final(buf)@ == old(buf)@ + bytes@,
{
    let mut tail = slice_to_vec(bytes);
    buf.append(&mut tail);
}

/// Appends the eight little-endian bytes of a 64-bit field.
pub fn push_u64_le(buf: &mut Vec<u8>, x: u64)
    ensures
        final(buf)@ == old(buf)@ + spec_u64_to_le_bytes(x),
{
    let mut tail = u64_to_le_bytes(x);
    buf.append(&mut tail);
}

/// Appends the sixteen little-endian bytes of a 128-bit field.
pub fn push_u128_le(buf: &mut Vec<u8>, x: u128)
    ensures
        final(buf)@ == old(buf)@ + spec_u128_le(x),
{
    let low = (x % 0x1_0000_0000_0000_0000) as u64;
    let high = (x / 0x1_0000_0000_0000_0000) as u64;
    push_u64_le(buf, low);
    push_u64_le(buf, high);
    proof {
        assert(buf@ =~= old(buf)@ + spec_u128_le(x));
    }
}

} // verus!
