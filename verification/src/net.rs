//! Addresses.
use vstd::prelude::*;

verus! {

/// An IPv4 address, by its bytes in network order.
#[derive(Debug, Clone, Copy, PartialEq, Eq, Hash)]
pub struct Ipv4Addr {
    pub octets: [u8; 4],
}

/// An IPv6 address, by its bytes in network order.
#[derive(Debug, Clone, Copy, PartialEq, Eq, Hash)]
pub struct Ipv6Addr {
    pub octets: [u8; 16],
}

/// An address of either family.
#[derive(Debug, Clone, Copy, PartialEq, Eq, Hash)]
pub enum IpAddr {
    V4(Ipv4Addr),
    V6(Ipv6Addr),
}

/// An address and a port.
#[derive(Debug, Clone, Copy, PartialEq, Eq, Hash)]
pub struct SocketAddr {
    pub ip: IpAddr,
    pub port: u16,
}

impl Ipv4Addr {
    /// The address whose bytes are the first four of `s`.
    pub open spec fn of(s: Seq<u8>) -> Ipv4Addr {
        Ipv4Addr { octets: [s[0], s[1], s[2], s[3]] }
    }

    pub fn from_vec(v: &Vec<u8>) -> (r: Ipv4Addr)
        requires
            v.len() >= 4,
        ensures
            r == Ipv4Addr::of(v@),
    {
        Ipv4Addr { octets: [v[0], v[1], v[2], v[3]] }
    }

    pub fn new(a: u8, b: u8, c: u8, d: u8) -> (r: Ipv4Addr)
        ensures
            r == Ipv4Addr::of(seq![a, b, c, d]),
    {
        Ipv4Addr { octets: [a, b, c, d] }
    }

    /// The address as a number, its first byte the most significant.
    pub open spec fn spec_to_bits(self) -> u32 {
        crate::wire::be32(self.octets@, 0)
    }

    pub fn to_bits(self) -> (r: u32)
        ensures
            r == self.spec_to_bits(),
    {
        self.octets[0] as u32 * 0x100_0000 + self.octets[1] as u32 * 0x1_0000
            + self.octets[2] as u32 * 0x100 + self.octets[3] as u32
    }
}

impl Ipv6Addr {
    /// The address whose bytes are the first sixteen of `s`.
    pub open spec fn of(s: Seq<u8>) -> Ipv6Addr {
        Ipv6Addr {
            octets: [
                s[0], s[1], s[2], s[3], s[4], s[5], s[6], s[7],
                s[8], s[9], s[10], s[11], s[12], s[13], s[14], s[15],
            ],
        }
    }

    pub fn from_vec(v: &Vec<u8>) -> (r: Ipv6Addr)
        requires
            v.len() >= 16,
        ensures
            r == Ipv6Addr::of(v@),
    {
        Ipv6Addr {
            octets: [
                v[0], v[1], v[2], v[3], v[4], v[5], v[6], v[7],
                v[8], v[9], v[10], v[11], v[12], v[13], v[14], v[15],
            ],
        }
    }
}

} // verus!
