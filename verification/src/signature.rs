//! The signature validator: accepts a byte view exactly when it has the fixed
//! signature length and opens with the magic tag in big-endian byte order.

use vstd::prelude::*;
use vstd::slice::slice_index_get;

verus! {

/// The 32-bit magic tag expected, big-endian, at the head of a signature region.
pub const MAGIC_ID: u32 = 0x5A414B00;

/// The exact length a candidate signature region must have; a region of any
/// other length is rejected outright.
pub const SIGNATURE_LEN: usize = 64;

/// The unsigned 32-bit value of the first four bytes of `s`, read in
/// big-endian byte order.
pub open spec fn be_u32_of(s: Seq<u8>) -> int
    recommends
        s.len() >= 4,
{
    (s[0] as int) * 0x1000000 + (s[1] as int) * 0x10000 + (s[2] as int) * 0x100 + (s[3] as int)
}

/// A byte view carries a valid signature exactly when it is `SIGNATURE_LEN`
/// bytes long and its leading four bytes, read big-endian, equal `MAGIC_ID`.
pub open spec fn spec_validate(s: Seq<u8>) -> bool {
    s.len() == SIGNATURE_LEN && be_u32_of(s) == MAGIC_ID as int
}

/// Decides whether `packet` carries a valid signature.
///
/// The length test comes first and alone: a region of the wrong size is
/// rejected with a single comparison, before any byte of it is read.
pub fn analyze_packet(packet: &[u8]) -> (accepted: bool)
    ensures
        accepted == spec_validate(packet@),
{
    if packet.len() != SIGNATURE_LEN {
        return false;
    }

    let b0 = *slice_index_get(packet, 0);
    let b1 = *slice_index_get(packet, 1);
    let b2 = *slice_index_get(packet, 2);
    let b3 = *slice_index_get(packet, 3);
    let received_magic: u32 = (b0 as u32) * 0x1000000 + (b1 as u32) * 0x10000
        + (b2 as u32) * 0x100 + (b3 as u32);

    received_magic == MAGIC_ID
}

} // verus!
