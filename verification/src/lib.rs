//! Zero-copy decoders for Ethernet II frames and ARP messages, together with
//! the address value types they expose. Raw frames come from a TAP device,
//! whose I/O lives outside this crate; everything here is pure interpretation
//! of bytes at fixed offsets with big-endian field order.

pub mod arp;
pub mod ethernet;
pub mod ip;
pub mod recv;
pub mod text;
pub mod wire;
