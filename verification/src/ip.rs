//! The IPv4 address value type: four bytes, rendered as dot-separated
//! decimal octets.

use vstd::prelude::*;

use crate::text::byte_dec;
use crate::text::push_char;
use crate::text::push_dec_byte;

verus! {

/// A network-layer address: four bytes.
pub struct IpAddress(pub [u8; 4]);

impl View for IpAddress {
    type V = Seq<u8>;

    open spec fn view(&self) -> Seq<u8> {
        self.0@
    }
}

/// The canonical text of an IPv4 address: four decimal octets separated by
/// dots.
pub open spec fn ip_text(ip: Seq<u8>) -> Seq<char>
    recommends
        ip.len() == 4,
{
    byte_dec(ip[0]) + seq!['.'] + byte_dec(ip[1]) + seq!['.'] + byte_dec(ip[2]) + seq!['.']
        + byte_dec(ip[3])
}

impl IpAddress {
    /// Copies an exact four-byte slice into an address value.
    pub fn from_bytes(bytes: &[u8]) -> (r: Self)
        requires
            bytes@.len() == 4,
        ensures
            r@ == bytes@,
    {
        let buffer: [u8; 4] = [bytes[0], bytes[1], bytes[2], bytes[3]];
        proof {
            assert(buffer@ =~= bytes@);
        }
        IpAddress(buffer)
    }

    /// Renders the address in its canonical dotted-decimal form.
    pub fn to_text(&self) -> (r: String)
        ensures
            r@ == ip_text(self@),
    {
        let mut s = String::new();
        push_dec_byte(&mut s, self.0[0]);
        push_char(&mut s, '.');
        push_dec_byte(&mut s, self.0[1]);
        push_char(&mut s, '.');
        push_dec_byte(&mut s, self.0[2]);
        push_char(&mut s, '.');
        push_dec_byte(&mut s, self.0[3]);
        proof {
            assert(s@ =~= ip_text(self@));
        }
        s
    }
}

} // verus!
