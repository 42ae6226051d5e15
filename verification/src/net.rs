//! Network addresses as plain numbers.

use vstd::prelude::*;

verus! {

/// An IP address, by its bits in network order.
#[derive(Clone, Copy, Debug, PartialEq, Eq, Structural)]
pub enum IpAddr {
    V4(u32),
    V6(u128),
}

/// An IP address with a port.
#[derive(Clone, Copy, Debug, PartialEq, Eq, Structural)]
pub enum SocketAddr {
    V4 { v4: u32, port: u16 },
    V6 { v6: u128, port: u16, flowinfo: u32, scope_id: u32 },
}

impl SocketAddr {
    /// The address with the given IP and port. The flow information and the scope of an IPv6
    /// address are zero.
    pub open spec fn of(ip: IpAddr, port: u16) -> SocketAddr {
        match ip {
            IpAddr::V4(ip) => SocketAddr::V4 { v4: ip, port },
            IpAddr::V6(ip) => SocketAddr::V6 { v6: ip, port, flowinfo: 0, scope_id: 0 },
        }
    }

    /// The IP address of a socket address.
    pub open spec fn ip_part(self) -> IpAddr {
        match self {
            SocketAddr::V4 { v4: ip, .. } => IpAddr::V4(ip),
            SocketAddr::V6 { v6: ip, .. } => IpAddr::V6(ip),
        }
    }

    /// Puts an IP address and a port together.
    pub fn new(ip: IpAddr, port: u16) -> (addr: SocketAddr)
        ensures
            addr == SocketAddr::of(ip, port),
    {
        match ip {
            IpAddr::V4(ip) => SocketAddr::V4 { v4: ip, port },
            IpAddr::V6(ip) => SocketAddr::V6 { v6: ip, port, flowinfo: 0, scope_id: 0 },
        }
    }

    /// The IP address.
    pub fn ip(&self) -> (ip: IpAddr)
        ensures
            ip == self.ip_part(),
    {
        match *self {
            SocketAddr::V4 { v4: ip, .. } => IpAddr::V4(ip),
            SocketAddr::V6 { v6: ip, .. } => IpAddr::V6(ip),
        }
    }
}

} // verus!
