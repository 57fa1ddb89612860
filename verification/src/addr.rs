//! Reachable peer addresses as plain values.
//!
//! The registry and the dispatcher work on this compact form of an
//! IPv4 address and port; the process edge converts between it and the
//! socket address type of the runtime.

use vstd::prelude::*;

verus! {

/// An external (NAT-traversed) IPv4 address and UDP port of a peer.
#[derive(Clone, Copy, PartialEq, Eq, Structural, Debug)]
pub struct PeerAddr {
    /// First octet of the IPv4 address.
    pub a: u8,
    /// Second octet of the IPv4 address.
    pub b: u8,
    /// Third octet of the IPv4 address.
    pub c: u8,
    /// Fourth octet of the IPv4 address.
    pub d: u8,
    /// UDP port.
    pub port: u16,
}

impl PeerAddr {
    /// Builds an address from its four IPv4 octets and port.
    pub fn new(a: u8, b: u8, c: u8, d: u8, port: u16) -> (r: PeerAddr)
        ensures
            r == (PeerAddr { a, b, c, d, port }),
    {
        PeerAddr { a, b, c, d, port }
    }
}

} // verus!
