//! The sockaddr decoder: from a raw platform socket-address structure,
//! already read out of OS memory as plain values, to an [`IpAddress`].

use vstd::prelude::*;

use crate::addr::IpAddress;
use crate::addr::Ipv4Address;
use crate::addr::Ipv6Address;
use crate::addr::spec_is_link_local_v6;

verus! {

/// The contents of a platform socket-address structure, reduced to the
/// fields the decoder reads, exactly as they are stored in the structure:
/// the IPv4 address as the 32-bit field whose least-significant byte is the
/// first dotted-quad octet, and the IPv6 address as eight 16-bit groups each
/// stored byte-swapped relative to conventional big-endian presentation.
/// A structure with any other address-family tag is `Other`.
#[derive(Debug, Clone, Copy, PartialEq, Eq, Structural)]
pub enum RawSockAddr {
    In4 { s_addr: u32 },
    In6 { g0: u16, g1: u16, g2: u16, g3: u16, g4: u16, g5: u16, g6: u16, g7: u16 },
    Other,
}

/// The two bytes of a 16-bit group, exchanged.
pub open spec fn spec_swap_bytes(g: u16) -> u16 {
    ((g & 0xff) << 8) | (g >> 8)
}

/// The four bytes of the stored 32-bit IPv4 address field as dotted-quad
/// octets, least-significant byte first (network byte order as stored).
pub open spec fn spec_ipv4_from_u32(s_addr: u32) -> Ipv4Address {
    Ipv4Address {
        o0: (s_addr & 0xff) as u8,
        o1: ((s_addr >> 8) & 0xff) as u8,
        o2: ((s_addr >> 16) & 0xff) as u8,
        o3: ((s_addr >> 24) & 0xff) as u8,
    }
}

/// The eight stored 16-bit groups, each byte-swapped into conventional
/// big-endian presentation order.
pub open spec fn spec_ipv6_from_groups(
    g0: u16,
    g1: u16,
    g2: u16,
    g3: u16,
    g4: u16,
    g5: u16,
    g6: u16,
    g7: u16,
) -> Ipv6Address {
    Ipv6Address {
        s0: spec_swap_bytes(g0),
        s1: spec_swap_bytes(g1),
        s2: spec_swap_bytes(g2),
        s3: spec_swap_bytes(g3),
        s4: spec_swap_bytes(g4),
        s5: spec_swap_bytes(g5),
        s6: spec_swap_bytes(g6),
        s7: spec_swap_bytes(g7),
    }
}

/// What the decoder yields for a socket-address structure: no value for a
/// null pointer, an unknown address family, or an IPv6 link-local address
/// (fe80::/10), which is excluded at decode time; the decoded address
/// otherwise.
pub open spec fn spec_decode_sockaddr(sa: Option<RawSockAddr>) -> Option<IpAddress> {
    match sa {
        Option::None => Option::None,
        Option::Some(RawSockAddr::In4 { s_addr }) => Option::Some(
            IpAddress::V4(spec_ipv4_from_u32(s_addr)),
        ),
        Option::Some(RawSockAddr::In6 { g0, g1, g2, g3, g4, g5, g6, g7 }) => {
            let a = spec_ipv6_from_groups(g0, g1, g2, g3, g4, g5, g6, g7);
            if spec_is_link_local_v6(a) {
                Option::None
            } else {
                Option::Some(IpAddress::V6(a))
            }
        },
        Option::Some(RawSockAddr::Other) => Option::None,
    }
}

/// Exchanges the two bytes of a 16-bit group.
pub fn swap_bytes(g: u16) -> (r: u16)
    ensures
        r == spec_swap_bytes(g),
{
    ((g & 0xff) << 8u16) | (g >> 8u16)
}

/// Decodes the stored 32-bit IPv4 address field into its four octets.
pub fn ipv4_from_u32(s_addr: u32) -> (r: Ipv4Address)
    ensures
        r == spec_ipv4_from_u32(s_addr),
{
    Ipv4Address {
        o0: (s_addr & 0xff) as u8,
        o1: ((s_addr >> 8u32) & 0xff) as u8,
        o2: ((s_addr >> 16u32) & 0xff) as u8,
        o3: ((s_addr >> 24u32) & 0xff) as u8,
    }
}

/// Decodes a socket-address structure (or a null pointer, `None`) into an
/// IP address, excluding IPv6 link-local addresses and unknown families.
pub fn decode_sockaddr(sa: &Option<RawSockAddr>) -> (r: Option<IpAddress>)
    ensures
        r == spec_decode_sockaddr(*sa),
{
    match sa {
        Option::None => Option::None,
        Option::Some(RawSockAddr::In4 { s_addr }) => Option::Some(
            IpAddress::V4(ipv4_from_u32(*s_addr)),
        ),
        Option::Some(RawSockAddr::In6 { g0, g1, g2, g3, g4, g5, g6, g7 }) => {
            let a = Ipv6Address {
                s0: swap_bytes(*g0),
                s1: swap_bytes(*g1),
                s2: swap_bytes(*g2),
                s3: swap_bytes(*g3),
                s4: swap_bytes(*g4),
                s5: swap_bytes(*g5),
                s6: swap_bytes(*g6),
                s7: swap_bytes(*g7),
            };
            if crate::addr::is_link_local_v6(&a) {
                Option::None
            } else {
                Option::Some(IpAddress::V6(a))
            }
        },
        Option::Some(RawSockAddr::Other) => Option::None,
    }
}

} // verus!
