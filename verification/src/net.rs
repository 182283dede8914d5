//! Network peer addresses as plain values.

use vstd::prelude::*;

verus! {

/// The address of a UDP or TCP peer: an IPv4 or IPv6 address and a port.
///
/// An IPv4 address is held in the low 32 bits of `ip`; for IPv6 the flow
/// information and scope id are kept so that two addresses are equal exactly
/// when the socket addresses they stand for are.
#[derive(Debug, Clone, Copy, PartialEq, Eq, Structural, Hash)]
pub struct PeerAddr {
    pub is_v6: bool,
    pub ip: u128,
    pub port: u16,
    pub flowinfo: u32,
    pub scope_id: u32,
}

impl PeerAddr {
    /// An IPv4 address and port.
    pub fn v4(ip: u32, port: u16) -> (r: Self)
        ensures
            r == (PeerAddr { is_v6: false, ip: ip as u128, port, flowinfo: 0, scope_id: 0 }),
    {
        PeerAddr { is_v6: false, ip: ip as u128, port, flowinfo: 0, scope_id: 0 }
    }
}

} // verus!
