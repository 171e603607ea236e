//! Addresses of peers.

use vstd::prelude::*;

verus! {

/// The address and port of a peer, as plain numbers.
#[derive(Clone, Copy, Debug, PartialEq, Eq, Structural)]
pub enum PeerAddr {
    /// An IPv4 address, its first octet most significant.
    V4 { ipv4: u32, port: u16 },
    /// An IPv6 address, its first octet most significant, with the two fields
    /// that tell equal addresses on different links or flows apart.
    V6 { ipv6: u128, port: u16, flowinfo: u32, scope_id: u32 },
}

impl PeerAddr {
    /// The address as a number, without the port.
    pub open spec fn spec_host(self) -> u128 {
        match self {
            PeerAddr::V4 { ipv4, .. } => ipv4 as u128,
            PeerAddr::V6 { ipv6, .. } => ipv6,
        }
    }

    /// Everything but the address: the family, the port and, for IPv6, the flow
    /// and the scope.
    pub open spec fn spec_endpoint(self) -> u128 {
        match self {
            PeerAddr::V4 { port, .. } => port as u128,
            PeerAddr::V6 { port, flowinfo, scope_id, .. } => (port + 0x1_0000 * scope_id
                + 0x1_0000_0000_0000 * flowinfo + 0x1_0000_0000_0000_0000_0000) as u128,
        }
    }

    /// The address as a number, without the port.
    pub(crate) fn host(&self) -> (host: u128)
        ensures
            host == self.spec_host(),
    {
        match *self {
            PeerAddr::V4 { ipv4, .. } => ipv4 as u128,
            PeerAddr::V6 { ipv6, .. } => ipv6,
        }
    }

    /// Everything but the address, as one number.
    pub(crate) fn endpoint(&self) -> (endpoint: u128)
        ensures
            endpoint == self.spec_endpoint(),
    {
        match *self {
            PeerAddr::V4 { port, .. } => port as u128,
            PeerAddr::V6 { port, flowinfo, scope_id, .. } => port as u128 + 0x1_0000 * (
            scope_id as u128) + 0x1_0000_0000_0000 * (flowinfo as u128)
                + 0x1_0000_0000_0000_0000_0000,
        }
    }
}

/// Every other peer has another host number or another endpoint number.
pub proof fn other_peers_have_other_numbers(peer: PeerAddr)
    ensures
        forall|other: PeerAddr|
            other != peer ==> #[trigger] other.spec_host() != peer.spec_host()
                || other.spec_endpoint() != peer.spec_endpoint(),
{
}

} // verus!
