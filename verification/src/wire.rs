//! Big-endian (network byte order) field access over byte buffers.

use vstd::prelude::*;

verus! {

/// The 16-bit big-endian integer formed by the two bytes of `b` starting at `i`.
pub open spec fn be16_at(b: Seq<u8>, i: int) -> int
    recommends
        0 <= i,
        i + 2 <= b.len(),
{
    b[i] * 256 + b[i + 1]
}

/// Relies on byteorder's `NetworkEndian::read_u16` (network order is big
/// endian): the result is the first buffer byte times 256 plus the second.
/// It panics on buffers shorter than two bytes, hence the precondition.
#[verifier::external_body]
pub(crate) fn read_u16_be(b: &[u8]) -> (r: u16)
    requires
        b@.len() >= 2,
    ensures
        r == be16_at(b@, 0),
{
    <byteorder::NetworkEndian as byteorder::ByteOrder>::read_u16(b)
}

} // verus!
