//! Plain-value identities of a peer: its transport endpoint and its host identity.

use vstd::prelude::*;

verus! {

/// A transport endpoint: an IP address and a port, held as integers.
///
/// `V4` carries the four address octets as one big-endian `u32`. `V6` carries
/// the sixteen octets as one big-endian `u128` together with the flow
/// information and the scope identifier, which take part in equality.
#[derive(Clone, Copy, Debug, PartialEq, Eq, Hash, Structural)]
pub enum Address {
    V4 { ip: u32, port: u16 },
    V6 { ip6: u128, port: u16, flowinfo: u32, scope_id: u32 },
}

/// The stable identity of a physical node: the 128 bits of its UUID.
#[derive(Clone, Copy, Debug, PartialEq, Eq, Hash, Structural)]
pub struct HostId {
    pub bits: u128,
}

impl Address {
    /// An IPv4 endpoint from its four octets and port.
    pub fn v4(a: u8, b: u8, c: u8, d: u8, port: u16) -> (addr: Address)
        ensures
            addr == (Address::V4 { ip: Self::pack_v4(a, b, c, d), port }),
    {
        let ip: u32 = ((a as u32) << 24) | ((b as u32) << 16) | ((c as u32) << 8) | (d as u32);
        Address::V4 { ip, port }
    }

    /// The big-endian packing of four octets.
    pub open spec fn pack_v4(a: u8, b: u8, c: u8, d: u8) -> u32 {
        ((a as u32) << 24) | ((b as u32) << 16) | ((c as u32) << 8) | (d as u32)
    }

    /// The port of the endpoint.
    pub fn port(&self) -> (p: u16)
        ensures
            p == self.spec_port(),
    {
        match self {
            Address::V4 { port, .. } => *port,
            Address::V6 { port, .. } => *port,
        }
    }

    pub open spec fn spec_port(&self) -> u16 {
        match *self {
            Address::V4 { port, .. } => port,
            Address::V6 { port, .. } => port,
        }
    }
}

impl HostId {
    /// The host identity with the given 128 bits.
    pub fn new(bits: u128) -> (id: HostId)
        ensures
            id.bits == bits,
    {
        HostId { bits }
    }
}

} // verus!
