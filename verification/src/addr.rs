//! The concrete network address that resolution produces.

use vstd::prelude::*;

verus! {

/// A concrete network endpoint: a v4-style host number and a port.
///
/// This is the output of resolution and the input to connection
/// establishment; it is not retained once a connect operation completes.
#[derive(Clone, Copy, PartialEq, Eq, Structural, Debug)]
pub struct NetAddr {
    /// The host number, big-endian: the first dotted octet is the most
    /// significant byte.
    pub host: u32,
    /// The transport port.
    pub port: u16,
}

impl NetAddr {
    /// Build an address from four dotted octets and a port.
    pub fn from_octets(a: u8, b: u8, c: u8, d: u8, port: u16) -> (r: NetAddr)
        ensures
            r.host == (a as int) * 0x100_0000 + (b as int) * 0x1_0000 + (c as int) * 0x100 + (
            d as int),
            r.port == port,
    {
        NetAddr {
            host: (a as u32) * 0x100_0000 + (b as u32) * 0x1_0000 + (c as u32) * 0x100 + (
            d as u32),
            port,
        }
    }
}

} // verus!
