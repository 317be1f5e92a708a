//! The address that a packet socket is bound to.

use crate::sys::{af_packet, packet_family};
use vstd::prelude::*;

verus! {

/// A link-layer socket address, field for field as the kernel reads it.
#[derive(Clone, Copy, Debug, PartialEq, Eq)]
pub struct LinkAddr {
    /// Address family.
    pub family: u16,
    /// Protocol type, most significant byte first.
    pub protocol: [u8; 2],
    /// Index of the interface.
    pub ifindex: i32,
    /// Hardware type; zero when binding.
    pub hatype: u16,
    /// Packet type; zero when binding.
    pub pkttype: u8,
    /// Length of the hardware address; zero when binding.
    pub halen: u8,
    /// Hardware address; zero when binding.
    pub addr: [u8; 8],
}

/// The low sixteen bits of `protocol`, most significant byte first: the
/// order in which the kernel reads a protocol type.
pub open spec fn network_order(protocol: i32) -> [u8; 2] {
    [(((protocol as int) % 0x10000) / 0x100) as u8, ((protocol as int) % 0x100) as u8]
}

/// Encodes a protocol selector for the kernel. Bits above the sixteenth
/// are dropped, as the kernel's field has no room for them.
pub fn protocol_bytes(protocol: i32) -> (b: [u8; 2])
    ensures
        b == network_order(protocol),
{
    let low: u16 = #[verifier::truncate] (protocol as u16);
    let hi: u8 = #[verifier::truncate] ((low >> 8) as u8);
    let lo: u8 = #[verifier::truncate] ((low & 0xff) as u8);
    proof {
        assert(low as int == (protocol as int) % 0x10000) by (bit_vector)
            requires
                low == protocol as u16,
        ;
        assert(hi == low / 0x100 && lo == low % 0x100) by (bit_vector)
            requires
                hi == (low >> 8) as u8,
                lo == (low & 0xff) as u8,
        ;
    }
    let b: [u8; 2] = [hi, lo];
    assert(b =~= network_order(protocol));
    b
}

impl LinkAddr {
    /// The address that ties a socket to the interface numbered `ifindex`
    /// and to frames of type `protocol`.
    pub open spec fn binding(protocol: i32, ifindex: i32) -> LinkAddr {
        LinkAddr {
            family: packet_family() as u16,
            protocol: network_order(protocol),
            ifindex,
            hatype: 0,
            pkttype: 0,
            halen: 0,
            addr: [0u8, 0u8, 0u8, 0u8, 0u8, 0u8, 0u8, 0u8],
        }
    }

    /// Builds the address to bind to.
    pub fn new(protocol: i32, ifindex: i32) -> (a: LinkAddr)
        ensures
            a == LinkAddr::binding(protocol, ifindex),
    {
        let family: u16 = af_packet() as u16;
        let addr: [u8; 8] = [0u8; 8];
        assert(addr =~= LinkAddr::binding(protocol, ifindex).addr);
        LinkAddr {
            family,
            protocol: protocol_bytes(protocol),
            ifindex,
            hatype: 0,
            pkttype: 0,
            halen: 0,
            addr,
        }
    }
}

} // verus!
