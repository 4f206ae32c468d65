//! Multi-byte quantities as they appear on the wire.

use vstd::prelude::*;

verus! {

/// The number that two octets denote in network byte order: the first octet
/// is the more significant one.
pub open spec fn be16(high: u8, low: u8) -> u16 {
    (high * 256 + low) as u16
}

/// The big-endian 16-bit number at `offset` in `bytes`.
pub open spec fn be16_at(bytes: Seq<u8>, offset: int) -> u16
    recommends
        0 <= offset,
        offset + 2 <= bytes.len(),
{
    be16(bytes[offset], bytes[offset + 1])
}

/// Reads the big-endian 16-bit number at `offset`.
pub fn read_be16(bytes: &[u8], offset: usize) -> (value: u16)
    requires
        offset + 2 <= bytes@.len(),
    ensures
        value == be16_at(bytes@, offset as int),
        value == bytes@[offset as int] * 256 + bytes@[offset + 1],
{
    let high: u16 = bytes[offset] as u16;
    let low: u16 = bytes[offset + 1] as u16;
    high * 256 + low
}

} // verus!
