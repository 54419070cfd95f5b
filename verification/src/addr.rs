//! Peer addresses.

use vstd::prelude::*;

verus! {

/// An IP address, held as the integer its octets spell in network order.
#[derive(Clone, Copy, Debug, PartialEq, Eq, Structural, Hash)]
pub enum IpAddress {
    V4(u32),
    V6(u128),
}

/// The address of a downstream peer: an IP address and a port.
#[derive(Clone, Copy, Debug, PartialEq, Eq, Structural, Hash)]
pub struct PeerAddr {
    pub ip: IpAddress,
    pub port: u16,
}

impl PeerAddr {
    /// The IPv4 peer `ip:port`.
    pub fn v4(ip: u32, port: u16) -> (peer: PeerAddr)
        ensures
            peer == (PeerAddr { ip: IpAddress::V4(ip), port }),
    {
        PeerAddr { ip: IpAddress::V4(ip), port }
    }

    /// The IPv6 peer `[ip]:port`.
    pub fn v6(ip: u128, port: u16) -> (peer: PeerAddr)
        ensures
            peer == (PeerAddr { ip: IpAddress::V6(ip), port }),
    {
        PeerAddr { ip: IpAddress::V6(ip), port }
    }
}

} // verus!
