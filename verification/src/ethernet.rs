//! Ethernet II frames: a zero-copy view over one received buffer, the MAC
//! address value type, and the EtherType code of the carried protocol.
//!
//! Field layout (all offsets in bytes, EtherType big-endian):
//! destination MAC 0..6, source MAC 6..12, EtherType 12..14, payload 14.. .

use vstd::prelude::*;
use vstd::slice::slice_subrange;

use crate::text::byte_hex;
use crate::text::hex_char;
use crate::text::hex_val;
use crate::text::hex_val_of;
use crate::text::is_hex_char;
use crate::text::lemma_hex_char_val;
use crate::text::push_char;
use crate::text::push_hex_byte;
use crate::wire::be16_at;
use crate::wire::read_u16_be;

verus! {

/// A link-layer address: six bytes.
pub struct MacAdress(pub [u8; 6]);

impl View for MacAdress {
    type V = Seq<u8>;

    open spec fn view(&self) -> Seq<u8> {
        self.0@
    }
}

/// The canonical text of a MAC address: six two-digit lowercase hexadecimal
/// octets separated by colons, seventeen characters in all.
pub open spec fn mac_text(m: Seq<u8>) -> Seq<char>
    recommends
        m.len() == 6,
{
    byte_hex(m[0]) + seq![':'] + byte_hex(m[1]) + seq![':'] + byte_hex(m[2]) + seq![':']
        + byte_hex(m[3]) + seq![':'] + byte_hex(m[4]) + seq![':'] + byte_hex(m[5])
}

/// Whether a character sequence is the canonical text of some MAC address.
pub open spec fn valid_mac_text(s: Seq<char>) -> bool {
    &&& s.len() == 17
    &&& (forall|k: int|
        0 <= k < 6 ==> is_hex_char(#[trigger] s[3 * k]) && is_hex_char(s[3 * k + 1]))
    &&& (forall|k: int| 0 <= k < 5 ==> #[trigger] s[3 * k + 2] == ':')
}

/// The six bytes written in a canonical MAC text.
pub open spec fn mac_of_text(s: Seq<char>) -> Seq<u8>
    recommends
        valid_mac_text(s),
{
    Seq::new(6, |k: int| (hex_val(s[3 * k]) * 16 + hex_val(s[3 * k + 1])) as u8)
}

impl MacAdress {
    /// Copies an exact six-byte slice into an address value.
    pub fn from_bytes(bytes: &[u8]) -> (r: Self)
        requires
            bytes@.len() == 6,
        ensures
            r@ == bytes@,
    {
        let buffer: [u8; 6] = [bytes[0], bytes[1], bytes[2], bytes[3], bytes[4], bytes[5]];
        proof {
            assert(buffer@ =~= bytes@);
        }
        MacAdress(buffer)
    }

    /// Renders the address in its canonical hex-colon form.
    pub fn to_text(&self) -> (r: String)
        ensures
            r@ == mac_text(self@),
    {
        let mut s = String::new();
        push_hex_byte(&mut s, self.0[0]);
        push_char(&mut s, ':');
        push_hex_byte(&mut s, self.0[1]);
        push_char(&mut s, ':');
        push_hex_byte(&mut s, self.0[2]);
        push_char(&mut s, ':');
        push_hex_byte(&mut s, self.0[3]);
        push_char(&mut s, ':');
        push_hex_byte(&mut s, self.0[4]);
        push_char(&mut s, ':');
        push_hex_byte(&mut s, self.0[5]);
        proof {
            assert(s@ =~= mac_text(self@));
        }
        s
    }

    /// Parses the canonical hex-colon form; any other text yields `None`.
    pub fn from_text(s: &str) -> (r: Option<Self>)
        ensures
            r is Some <==> valid_mac_text(s@),
            r matches Some(m) ==> m@ == mac_of_text(s@),
    {
        if s.unicode_len() != 17 {
            return None;
        }
        let mut bytes: [u8; 6] = [0, 0, 0, 0, 0, 0];
        let mut k: usize = 0;
        while k < 6
            invariant
                s@.len() == 17,
                k <= 6,
                forall|j: int|
                    0 <= j < k ==> is_hex_char(#[trigger] s@[3 * j]) && is_hex_char(s@[3 * j + 1]),
                forall|j: int| 0 <= j < k && j < 5 ==> #[trigger] s@[3 * j + 2] == ':',
                forall|j: int|
                    0 <= j < k ==> #[trigger] bytes@[j] == (hex_val(s@[3 * j]) * 16 + hex_val(
                        s@[3 * j + 1],
                    )) as u8,
            decreases 6 - k,
        {
            let hi = hex_val_of(s.get_char(3 * k));
            let lo = hex_val_of(s.get_char(3 * k + 1));
            if hi >= 16 || lo >= 16 {
                return None;
            }
            if k < 5 && s.get_char(3 * k + 2) != ':' {
                return None;
            }
            bytes[k] = hi * 16 + lo;
            k = k + 1;
        }
        proof {
            assert(valid_mac_text(s@));
            assert(bytes@ =~= mac_of_text(s@));
        }
        Some(MacAdress(bytes))
    }
}

/// Law: the canonical text of a MAC address is itself valid MAC text, and
/// parsing it back recovers exactly the bytes it was rendered from.
pub proof fn lemma_mac_text_round_trip(m: Seq<u8>)
    requires
        m.len() == 6,
    ensures
        valid_mac_text(mac_text(m)),
        mac_of_text(mac_text(m)) =~= m,
{
    let s = mac_text(m);
    assert forall|k: int| 0 <= k < 6 implies #[trigger] s[3 * k] == hex_char(m[k] as int / 16) && s[
        3 * k + 1
    ] == hex_char(m[k] as int % 16) by {
    }
    assert forall|k: int| 0 <= k < 5 implies #[trigger] s[3 * k + 2] == ':' by {
    }
    assert forall|k: int| 0 <= k < 6 implies is_hex_char(#[trigger] s[3 * k]) && is_hex_char(
        s[3 * k + 1],
    ) && hex_val(s[3 * k]) * 16 + hex_val(s[3 * k + 1]) == m[k] by {
        lemma_hex_char_val(m[k] as int / 16);
        lemma_hex_char_val(m[k] as int % 16);
    }
}

pub const ETH_P_IP: u16 = 0x0800;

pub const ETH_P_ARP: u16 = 0x0806;

pub const ETH_P_IPV6: u16 = 0x86DD;

/// The protocol carried in a frame's payload, from the closed set this crate
/// recognizes. Codes outside the set decode to `None`, never to an error.
#[derive(Debug, PartialEq, Eq, Structural, Clone, Copy)]
pub enum EtherType {
    Ipv4,
    Arp,
    Ipv6,
}

/// What a 16-bit EtherType code decodes to.
pub open spec fn spec_ether_type(code: int) -> Option<EtherType> {
    if code == ETH_P_ARP {
        Some(EtherType::Arp)
    } else if code == ETH_P_IP {
        Some(EtherType::Ipv4)
    } else if code == ETH_P_IPV6 {
        Some(EtherType::Ipv6)
    } else {
        None
    }
}

impl EtherType {
    pub fn decode(v: u16) -> (r: Option<Self>)
        ensures
            r == spec_ether_type(v as int),
    {
        if v == ETH_P_ARP {
            Some(EtherType::Arp)
        } else if v == ETH_P_IP {
            Some(EtherType::Ipv4)
        } else if v == ETH_P_IPV6 {
            Some(EtherType::Ipv6)
        } else {
            None
        }
    }
}

pub const ETH_HDR_SIZE: usize = 14;

/// An Ethernet II frame: the owned raw buffer of one received frame,
/// interpreted at fixed offsets. The buffer holds at least the 14-byte
/// header; handing a shorter one to `new` is a contract violation.
pub struct EthernetFrame {
    buffer: Vec<u8>,
}

impl View for EthernetFrame {
    type V = Seq<u8>;

    closed spec fn view(&self) -> Seq<u8> {
        self.buffer@
    }
}

/// The destination MAC bytes of a frame.
pub open spec fn spec_destination(b: Seq<u8>) -> Seq<u8> {
    b.subrange(0, 6)
}

/// The source MAC bytes of a frame.
pub open spec fn spec_source(b: Seq<u8>) -> Seq<u8> {
    b.subrange(6, 12)
}

/// The decoded EtherType of a frame.
pub open spec fn spec_ethertype(b: Seq<u8>) -> Option<EtherType> {
    spec_ether_type(be16_at(b, 12))
}

/// The payload bytes of a frame: everything after the 14-byte header.
pub open spec fn spec_payload(b: Seq<u8>) -> Seq<u8> {
    b.skip(14)
}

impl EthernetFrame {
    /// The frame holds at least its fixed header.
    pub open spec fn wf(&self) -> bool {
        self@.len() >= ETH_HDR_SIZE
    }

    pub fn new(buffer: Vec<u8>) -> (r: Self)
        requires
            buffer@.len() >= ETH_HDR_SIZE,
        ensures
            r@ == buffer@,
            r.wf(),
    {
        EthernetFrame { buffer }
    }

    pub fn destination(&self) -> (r: MacAdress)
        requires
            self.wf(),
        ensures
            r@ == spec_destination(self@),
    {
        MacAdress::from_bytes(slice_subrange(self.buffer.as_slice(), 0, 6))
    }

    pub fn source(&self) -> (r: MacAdress)
        requires
            self.wf(),
        ensures
            r@ == spec_source(self@),
    {
        MacAdress::from_bytes(slice_subrange(self.buffer.as_slice(), 6, 12))
    }

    pub fn ethertype(&self) -> (r: Option<EtherType>)
        requires
            self.wf(),
        ensures
            r == spec_ethertype(self@),
    {
        let code = read_u16_be(slice_subrange(self.buffer.as_slice(), 12, 14));
        EtherType::decode(code)
    }

    pub fn payload(&self) -> (r: &[u8])
        requires
            self.wf(),
        ensures
            r@ == spec_payload(self@),
    {
        let r = slice_subrange(self.buffer.as_slice(), 14, self.buffer.len());
        proof {
            assert(r@ =~= spec_payload(self@));
        }
        r
    }
}

/// Law: decoding an Ethernet frame is a pure function of its bytes — two
/// frames over equal buffers agree on every decoded field, so re-decoding
/// the same buffer yields identical values.
pub proof fn lemma_ethernet_decode_pure(a: EthernetFrame, b: EthernetFrame)
    requires
        a@ == b@,
    ensures
        spec_destination(a@) == spec_destination(b@),
        spec_source(a@) == spec_source(b@),
        spec_ethertype(a@) == spec_ethertype(b@),
        spec_payload(a@) == spec_payload(b@),
{
}

} // verus!
