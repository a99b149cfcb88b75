//! The compute half of the receive path: the TAP device reads each frame
//! into a buffer sized to the MTU plus headroom for frame overhead, and
//! hands the caller exactly the bytes the read returned.

use vstd::prelude::*;

verus! {

pub const MTU: usize = 1500;

pub const RECV_HEADROOM: usize = 100;

/// A zeroed receive buffer sized to the MTU plus frame headroom.
pub fn recv_buffer() -> (r: Vec<u8>)
    ensures
        r@.len() == MTU + RECV_HEADROOM,
        forall|i: int| 0 <= i < r@.len() ==> r@[i] == 0u8,
{
    let mut v: Vec<u8> = Vec::new();
    while v.len() < MTU + RECV_HEADROOM
        invariant
            v@.len() <= MTU + RECV_HEADROOM,
            forall|i: int| 0 <= i < v@.len() ==> v@[i] == 0u8,
        decreases MTU + RECV_HEADROOM - v@.len(),
    {
        v.push(0u8);
    }
    v
}

/// Trims a received buffer to the byte count one read returned, so the
/// caller gets exactly the bytes that were read.
pub fn trim_frame(buffer: &mut Vec<u8>, read_bytes: usize)
    requires
        read_bytes <= old(buffer)@.len(),
    ensures
        final(buffer)@ == old(buffer)@.subrange(0, read_bytes as int),
{
    buffer.truncate(read_bytes);
}

} // verus!
