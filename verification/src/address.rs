//! The public network address of a host.
use vstd::prelude::*;

verus! {

/// An IPv4 or IPv6 address, compared by its bits.
///
/// An IPv4 address is held as its four octets, an IPv6 address as its eight
/// 16-bit segments, both in network order. Two addresses are equal exactly
/// when they are of the same family and hold the same numbers: there is no
/// tolerance for a prefix, and an IPv4 address never equals an IPv6 one.
#[derive(Clone, Copy, Debug, PartialEq, Eq, Hash, Structural)]
pub enum PublicAddress {
    V4(u8, u8, u8, u8),
    V6(u16, u16, u16, u16, u16, u16, u16, u16),
}

impl PublicAddress {
    /// Whether this is an IPv4 address.
    pub fn is_ipv4(&self) -> (r: bool)
        ensures
            r == (*self is V4),
    {
        match self {
            PublicAddress::V4(..) => true,
            PublicAddress::V6(..) => false,
        }
    }

    /// Whether this is an IPv6 address.
    pub fn is_ipv6(&self) -> (r: bool)
        ensures
            r == (*self is V6),
    {
        !self.is_ipv4()
    }
}

} // verus!
