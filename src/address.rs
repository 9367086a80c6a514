use vstd::prelude::*;

verus! {

/// An IP address, held as its numeric components.
#[derive(Clone, Copy, Debug, PartialEq, Eq)]
pub enum IpAddress {
    /// Four octets, most significant first.
    V4([u8; 4]),
    /// Eight 16-bit segments, most significant first.
    V6([u16; 8]),
}

/// A local socket address to bind the listener to.
#[derive(Clone, Copy, Debug, PartialEq, Eq)]
pub struct SocketAddress {
    pub ip: IpAddress,
    pub port: u16,
    /// IPv6 flow information (zero for IPv4).
    pub flowinfo: u32,
    /// IPv6 scope identifier (zero for IPv4).
    pub scope_id: u32,
}

impl SocketAddress {
    /// An IPv4 socket address.
    pub fn v4(octets: [u8; 4], port: u16) -> (r: Self)
        ensures
            r.ip == IpAddress::V4(octets),
            r.port == port,
            r.flowinfo == 0,
            r.scope_id == 0,
    {
        SocketAddress { ip: IpAddress::V4(octets), port, flowinfo: 0, scope_id: 0 }
    }
}

} // verus!
