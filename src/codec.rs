//! Little-endian integer reads, through byteorder.

use byteorder::{ByteOrder, LittleEndian};
use vstd::prelude::*;

verus! {

/// The value of two bytes read least significant first.
pub open spec fn le16(lo: u8, hi: u8) -> int {
    lo as int + 256 * hi as int
}

/// The value of three bytes read least significant first.
pub open spec fn le24(b0: u8, b1: u8, b2: u8) -> int {
    b0 as int + 256 * b1 as int + 65536 * b2 as int
}

/// Relies on byteorder's `LittleEndian::read_u16`, which reads the first two
/// bytes of the slice it is given, least significant first, and panics when
/// fewer than two are there.
#[verifier::external_body]
pub(crate) fn read_u16_at(buf: &[u8], at: usize) -> (r: u16)
    requires
        at + 2 <= buf@.len(),
    ensures
        r as int == le16(buf@[at as int], buf@[at + 1]),
{
    LittleEndian::read_u16(&buf[at..])
}

/// Relies on byteorder's `LittleEndian::read_u24`, which reads the first
/// three bytes of the slice it is given, least significant first, and panics
/// when fewer than three are there.
#[verifier::external_body]
pub(crate) fn read_u24_at(buf: &[u8], at: usize) -> (r: u32)
    requires
        at + 3 <= buf@.len(),
    ensures
        r as int == le24(buf@[at as int], buf@[at + 1], buf@[at + 2]),
{
    LittleEndian::read_u24(&buf[at..])
}

} // verus!
