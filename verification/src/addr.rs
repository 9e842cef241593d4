//! The data model: IP addresses as plain values, and the interface record.

use vstd::prelude::*;

verus! {

/// An IPv4 address as its four dotted-quad octets, first octet first.
#[derive(Debug, Clone, Copy, PartialEq, Eq, Hash, Structural)]
pub struct Ipv4Address {
    pub o0: u8,
    pub o1: u8,
    pub o2: u8,
    pub o3: u8,
}

/// An IPv6 address as its eight 16-bit groups in conventional big-endian
/// presentation order (`s0` is the leading group of the written form).
#[derive(Debug, Clone, Copy, PartialEq, Eq, Hash, Structural)]
pub struct Ipv6Address {
    pub s0: u16,
    pub s1: u16,
    pub s2: u16,
    pub s3: u16,
    pub s4: u16,
    pub s5: u16,
    pub s6: u16,
    pub s7: u16,
}

/// An IP address of either family.
#[derive(Debug, Clone, Copy, PartialEq, Eq, Hash, Structural)]
pub enum IpAddress {
    V4(Ipv4Address),
    V6(Ipv6Address),
}

/// The IPv4 unspecified address 0.0.0.0, the sentinel meaning
/// "not provided by the OS for this record".
pub open spec fn spec_unspecified() -> IpAddress {
    IpAddress::V4(Ipv4Address { o0: 0, o1: 0, o2: 0, o3: 0 })
}

/// Whether an IPv4 address lies in the link-local range 169.254.0.0/16.
pub open spec fn spec_is_link_local_v4(a: Ipv4Address) -> bool {
    a.o0 == 169 && a.o1 == 254
}

/// Whether an IPv6 address lies in the link-local range fe80::/10,
/// that is, its first 10 bits are 1111 1110 10.
pub open spec fn spec_is_link_local_v6(a: Ipv6Address) -> bool {
    a.s0 & 0xffc0 == 0xfe80
}

/// The sentinel address 0.0.0.0.
pub fn unspecified() -> (r: IpAddress)
    ensures
        r == spec_unspecified(),
{
    IpAddress::V4(Ipv4Address { o0: 0, o1: 0, o2: 0, o3: 0 })
}

/// Tests for the IPv4 link-local range 169.254.0.0/16.
pub fn is_link_local_v4(a: &Ipv4Address) -> (r: bool)
    ensures
        r == spec_is_link_local_v4(*a),
{
    a.o0 == 169 && a.o1 == 254
}

/// Tests for the IPv6 link-local range fe80::/10.
pub fn is_link_local_v6(a: &Ipv6Address) -> (r: bool)
    ensures
        r == spec_is_link_local_v6(*a),
{
    a.s0 & 0xffc0 == 0xfe80
}

/// Details about one configured address of one interface on this host.
#[derive(Debug, Clone, PartialEq, Eq, Hash)]
pub struct IfAddr {
    /// The name of the interface.
    pub name: String,
    /// The IP address of the interface.
    pub addr: IpAddress,
    /// The netmask of the interface.
    pub netmask: IpAddress,
    /// How to send a broadcast on the interface.
    pub broadcast: IpAddress,
}

/// The mathematical content of an [`IfAddr`]: the name as a sequence of
/// characters, beside the three address fields.
#[verifier::ext_equal]
pub struct IfAddrView {
    pub name: Seq<char>,
    pub addr: IpAddress,
    pub netmask: IpAddress,
    pub broadcast: IpAddress,
}

impl View for IfAddr {
    type V = IfAddrView;

    open spec fn view(&self) -> IfAddrView {
        IfAddrView {
            name: self.name@,
            addr: self.addr,
            netmask: self.netmask,
            broadcast: self.broadcast,
        }
    }
}

/// The view of an optional record, for contracts of functions that either
/// produce a record or drop it.
pub open spec fn spec_opt_record_view(r: Option<IfAddr>) -> Option<IfAddrView> {
    match r {
        Option::Some(rec) => Option::Some(rec@),
        Option::None => Option::None,
    }
}

/// The views of a sequence of records.
pub open spec fn spec_record_views(records: Seq<IfAddr>) -> Seq<IfAddrView> {
    records.map_values(|r: IfAddr| r@)
}

impl IfAddr {
    /// Create a new IfAddr, with an empty name and every address field at
    /// the sentinel 0.0.0.0.
    pub fn new() -> (r: IfAddr)
        ensures
            r@.name == Seq::<char>::empty(),
            r@.addr == spec_unspecified(),
            r@.netmask == spec_unspecified(),
            r@.broadcast == spec_unspecified(),
    {
        IfAddr {
            name: String::new(),
            addr: unspecified(),
            netmask: unspecified(),
            broadcast: unspecified(),
        }
    }
}

} // verus!
