//! ARP messages, decoded in two stages from an Ethernet payload: a header
//! view, and a payload view that exists only for the Ethernet/IPv4
//! combination the fixed 20-byte layout supports.
//!
//! Header layout (big-endian 16-bit fields): hardware type 0..2, protocol
//! type 2..4, operation 6..8, payload 8.. . Payload layout: source MAC 0..6,
//! source IP 6..10, destination MAC 10..16, destination IP 16..20.

use vstd::prelude::*;
use vstd::slice::slice_subrange;

use crate::ethernet::spec_ether_type;
use crate::ethernet::EtherType;
use crate::ethernet::MacAdress;
use crate::ip::IpAddress;
use crate::wire::be16_at;
use crate::wire::read_u16_be;

verus! {

pub const ARP_ETHERNET: u16 = 0x0001;

pub const ARP_REQUEST: u16 = 0x0001;

pub const ARP_REPLY: u16 = 0x0002;

pub const ARP_HDR_SIZE: usize = 8;

pub const ARP_PAYLOAD_SIZE: usize = 20;

/// The link-layer kind named in an ARP header; only Ethernet is in scope,
/// every other code decodes to `None`.
#[derive(Debug, PartialEq, Eq, Structural, Clone, Copy)]
pub enum HardwareType {
    Ethernet,
}

/// What a 16-bit hardware-type code decodes to.
pub open spec fn spec_hardware_type(code: int) -> Option<HardwareType> {
    if code == ARP_ETHERNET {
        Some(HardwareType::Ethernet)
    } else {
        None
    }
}

impl HardwareType {
    pub fn decode(code: u16) -> (r: Option<Self>)
        ensures
            r == spec_hardware_type(code as int),
    {
        if code == ARP_ETHERNET {
            Some(HardwareType::Ethernet)
        } else {
            None
        }
    }
}

/// The ARP operation; codes outside the closed set decode to `None`.
#[derive(Debug, PartialEq, Eq, Structural, Clone, Copy)]
pub enum Operation {
    Request,
    Reply,
}

/// What a 16-bit operation code decodes to.
pub open spec fn spec_operation(code: int) -> Option<Operation> {
    if code == ARP_REQUEST {
        Some(Operation::Request)
    } else if code == ARP_REPLY {
        Some(Operation::Reply)
    } else {
        None
    }
}

impl Operation {
    pub fn decode(code: u16) -> (r: Option<Self>)
        ensures
            r == spec_operation(code as int),
    {
        if code == ARP_REQUEST {
            Some(Operation::Request)
        } else if code == ARP_REPLY {
            Some(Operation::Reply)
        } else {
            None
        }
    }
}

/// A zero-copy view over the ARP message inside an Ethernet payload. The
/// buffer holds at least the 8-byte header; handing a shorter one to
/// `from_bytes` is a contract violation.
pub struct ArpHeader<'a> {
    buffer: &'a [u8],
}

impl View for ArpHeader<'_> {
    type V = Seq<u8>;

    closed spec fn view(&self) -> Seq<u8> {
        self.buffer@
    }
}

/// The decoded hardware type of an ARP message.
pub open spec fn spec_arp_hardware_type(b: Seq<u8>) -> Option<HardwareType> {
    spec_hardware_type(be16_at(b, 0))
}

/// The decoded protocol type of an ARP message (an EtherType code).
pub open spec fn spec_arp_protocol_type(b: Seq<u8>) -> Option<EtherType> {
    spec_ether_type(be16_at(b, 2))
}

/// The decoded operation of an ARP message.
pub open spec fn spec_arp_operation(b: Seq<u8>) -> Option<Operation> {
    spec_operation(be16_at(b, 6))
}

/// The address bytes of an ARP message: everything after the 8-byte header.
pub open spec fn spec_arp_payload(b: Seq<u8>) -> Seq<u8> {
    b.skip(8)
}

impl<'a> ArpHeader<'a> {
    /// The view holds at least the fixed header.
    pub open spec fn wf(&self) -> bool {
        self@.len() >= ARP_HDR_SIZE
    }

    pub fn from_bytes(buffer: &'a [u8]) -> (r: Self)
        requires
            buffer@.len() >= ARP_HDR_SIZE,
        ensures
            r@ == buffer@,
            r.wf(),
    {
        ArpHeader { buffer }
    }

    pub fn hardware_type(&self) -> (r: Option<HardwareType>)
        requires
            self.wf(),
        ensures
            r == spec_arp_hardware_type(self@),
    {
        let code = read_u16_be(slice_subrange(self.buffer, 0, 2));
        HardwareType::decode(code)
    }

    pub fn protocol_type(&self) -> (r: Option<EtherType>)
        requires
            self.wf(),
        ensures
            r == spec_arp_protocol_type(self@),
    {
        let code = read_u16_be(slice_subrange(self.buffer, 2, 4));
        EtherType::decode(code)
    }

    pub fn operation(&self) -> (r: Option<Operation>)
        requires
            self.wf(),
        ensures
            r == spec_arp_operation(self@),
    {
        let code = read_u16_be(slice_subrange(self.buffer, 6, 8));
        Operation::decode(code)
    }

    pub fn payload(&self) -> (r: &'a [u8])
        requires
            self.wf(),
        ensures
            r@ == spec_arp_payload(self@),
    {
        let r = slice_subrange(self.buffer, 8, self.buffer.len());
        proof {
            assert(r@ =~= spec_arp_payload(self@));
        }
        r
    }
}

/// A zero-copy view over the addresses of an Ethernet/IPv4 ARP message.
/// The buffer holds at least the fixed 20-byte layout; handing a shorter
/// one to `from_bytes` is a contract violation.
pub struct ArpPayload<'a> {
    buffer: &'a [u8],
}

impl View for ArpPayload<'_> {
    type V = Seq<u8>;

    closed spec fn view(&self) -> Seq<u8> {
        self.buffer@
    }
}

/// Whether an ARP message names the one address layout in scope: hardware
/// type Ethernet carrying protocol IPv4.
pub open spec fn is_ethernet_ipv4(b: Seq<u8>) -> bool {
    &&& spec_arp_hardware_type(b) == Some(HardwareType::Ethernet)
    &&& spec_arp_protocol_type(b) == Some(EtherType::Ipv4)
}

impl<'a> ArpPayload<'a> {
    /// The view holds the whole fixed address layout.
    pub open spec fn wf(&self) -> bool {
        self@.len() >= ARP_PAYLOAD_SIZE
    }

    pub fn from_bytes(buffer: &'a [u8]) -> (r: ArpPayload<'a>)
        requires
            buffer@.len() >= ARP_PAYLOAD_SIZE,
        ensures
            r@ == buffer@,
            r.wf(),
    {
        ArpPayload { buffer }
    }

    /// Guarded constructor: a payload view exists exactly when the header
    /// reports hardware type Ethernet and protocol type IPv4; any other
    /// combination yields `None`, whatever the buffer length.
    pub fn from_arp_hdr(arp_hdr: ArpHeader<'a>) -> (r: Option<ArpPayload<'a>>)
        requires
            arp_hdr.wf(),
            is_ethernet_ipv4(arp_hdr@) ==> arp_hdr@.len() >= ARP_HDR_SIZE + ARP_PAYLOAD_SIZE,
        ensures
            r is Some <==> is_ethernet_ipv4(arp_hdr@),
            r matches Some(p) ==> p@ == spec_arp_payload(arp_hdr@) && p.wf(),
    {
        let hw_ok = match arp_hdr.hardware_type() {
            Some(HardwareType::Ethernet) => true,
            None => false,
        };
        let proto_ok = match arp_hdr.protocol_type() {
            Some(EtherType::Ipv4) => true,
            _ => false,
        };
        if hw_ok && proto_ok {
            Some(Self::from_bytes(arp_hdr.payload()))
        } else {
            None
        }
    }

    pub fn source_mac(&self) -> (r: MacAdress)
        requires
            self.wf(),
        ensures
            r@ == self@.subrange(0, 6),
    {
        MacAdress::from_bytes(slice_subrange(self.buffer, 0, 6))
    }

    pub fn source_ip(&self) -> (r: IpAddress)
        requires
            self.wf(),
        ensures
            r@ == self@.subrange(6, 10),
    {
        IpAddress::from_bytes(slice_subrange(self.buffer, 6, 10))
    }

    pub fn dest_mac(&self) -> (r: MacAdress)
        requires
            self.wf(),
        ensures
            r@ == self@.subrange(10, 16),
    {
        MacAdress::from_bytes(slice_subrange(self.buffer, 10, 16))
    }

    pub fn dest_ip(&self) -> (r: IpAddress)
        requires
            self.wf(),
        ensures
            r@ == self@.subrange(16, 20),
    {
        IpAddress::from_bytes(slice_subrange(self.buffer, 16, 20))
    }
}

} // verus!
