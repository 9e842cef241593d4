//! The POSIX backend: record assembly from the nodes of the OS-owned
//! `getifaddrs`-style linked list, after the platform adapter has read each
//! node out into plain values.

use vstd::prelude::*;

use crate::addr::IfAddr;
use crate::addr::IfAddrView;
use crate::addr::spec_opt_record_view;
use crate::addr::spec_record_views;
use crate::addr::spec_unspecified;
use crate::addr::unspecified;
use crate::decode::RawSockAddr;
use crate::decode::decode_sockaddr;
use crate::decode::spec_decode_sockaddr;
use crate::name::name_from_bytes;
use crate::name::spec_name_chars;
use crate::name::spec_valid_name;

verus! {

/// The bit in the interface flag set that advertises broadcast capability.
pub const BROADCAST_FLAG: u32 = 2;

/// One node of the OS's interface list, read out into plain values: the
/// bytes of the null-terminated name buffer, the primary address and netmask
/// structures (`None` where the node's pointer was null), the flag bitset,
/// and the broadcast-union slot (the broadcast field on Linux-family
/// systems, the point-to-point destination field on BSD-family systems).
pub struct PosixNode {
    pub name: Vec<u8>,
    pub addr: Option<RawSockAddr>,
    pub netmask: Option<RawSockAddr>,
    pub flags: u32,
    pub broadcast: Option<RawSockAddr>,
}

/// The mathematical content of a [`PosixNode`].
#[verifier::ext_equal]
pub struct PosixNodeView {
    pub name: Seq<u8>,
    pub addr: Option<RawSockAddr>,
    pub netmask: Option<RawSockAddr>,
    pub flags: u32,
    pub broadcast: Option<RawSockAddr>,
}

impl View for PosixNode {
    type V = PosixNodeView;

    open spec fn view(&self) -> PosixNodeView {
        PosixNodeView {
            name: self.name@,
            addr: self.addr,
            netmask: self.netmask,
            flags: self.flags,
            broadcast: self.broadcast,
        }
    }
}

/// The views of a sequence of nodes.
pub open spec fn spec_node_views(nodes: Seq<PosixNode>) -> Seq<PosixNodeView> {
    nodes.map_values(|n: PosixNode| n@)
}

/// A decoded secondary field: the decoded address, or the sentinel 0.0.0.0
/// where the field is missing or does not decode.
pub open spec fn spec_decode_or_unspecified(sa: Option<RawSockAddr>) -> crate::addr::IpAddress {
    match spec_decode_sockaddr(sa) {
        Option::Some(a) => a,
        Option::None => spec_unspecified(),
    }
}

/// The record one list node yields, if any: none when the name buffer is
/// unusable or the primary address is missing, filtered, or of an unknown
/// family; otherwise a record carrying the decoded address, the netmask or
/// its sentinel, and — only when the node's flags advertise broadcast
/// capability — the decoded broadcast-union slot.
pub open spec fn spec_posix_record(n: PosixNodeView) -> Option<IfAddrView> {
    if !spec_valid_name(n.name) {
        Option::None
    } else {
        match spec_decode_sockaddr(n.addr) {
            Option::None => Option::None,
            Option::Some(a) => Option::Some(
                IfAddrView {
                    name: spec_name_chars(n.name),
                    addr: a,
                    netmask: spec_decode_or_unspecified(n.netmask),
                    broadcast: if n.flags & BROADCAST_FLAG != 0 {
                        spec_decode_or_unspecified(n.broadcast)
                    } else {
                        spec_unspecified()
                    },
                },
            ),
        }
    }
}

/// The records a whole list of nodes yields, in list order, dropped nodes
/// producing nothing.
pub open spec fn spec_collect_posix(nodes: Seq<PosixNodeView>) -> Seq<IfAddrView>
    decreases nodes.len(),
{
    if nodes.len() == 0 {
        Seq::empty()
    } else {
        let rest = spec_collect_posix(nodes.drop_last());
        match spec_posix_record(nodes.last()) {
            Option::Some(r) => rest.push(r),
            Option::None => rest,
        }
    }
}

/// Decodes a secondary (netmask or broadcast) field, falling back to the
/// sentinel 0.0.0.0 rather than dropping the record.
fn decode_or_unspecified(sa: &Option<RawSockAddr>) -> (r: crate::addr::IpAddress)
    ensures
        r == spec_decode_or_unspecified(*sa),
{
    match decode_sockaddr(sa) {
        Option::Some(a) => a,
        Option::None => unspecified(),
    }
}

/// Assembles the record of one list node, or drops the node: exactly as
/// [`spec_posix_record`] states.
pub fn posix_record(node: &PosixNode) -> (r: Option<IfAddr>)
    ensures
        spec_opt_record_view(r) == spec_posix_record(node@),
{
    let name = match name_from_bytes(&node.name) {
        Option::Some(s) => s,
        Option::None => {
            return Option::None;
        },
    };
    let addr = match decode_sockaddr(&node.addr) {
        Option::Some(a) => a,
        Option::None => {
            return Option::None;
        },
    };
    let netmask = decode_or_unspecified(&node.netmask);
    let broadcast = if node.flags & BROADCAST_FLAG != 0 {
        decode_or_unspecified(&node.broadcast)
    } else {
        unspecified()
    };
    let rec = IfAddr { name, addr, netmask, broadcast };
    proof {
        assert(rec@ =~= spec_posix_record(node@).unwrap());
    }
    Option::Some(rec)
}

/// Walks a whole list of nodes and collects the records they yield, in list
/// order: exactly as [`spec_collect_posix`] states.
pub fn collect_posix_records(nodes: &Vec<PosixNode>) -> (r: Vec<IfAddr>)
    ensures
        spec_record_views(r@) == spec_collect_posix(spec_node_views(nodes@)),
{
    let ghost all = spec_node_views(nodes@);
    let mut out: Vec<IfAddr> = Vec::new();
    let mut i: usize = 0;
    while i < nodes.len()
        invariant
            0 <= i <= nodes@.len(),
            all == spec_node_views(nodes@),
            spec_record_views(out@) == spec_collect_posix(all.take(i as int)),
        decreases nodes@.len() - i,
    {
        let ghost prefix = all.take(i as int);
        match posix_record(&nodes[i]) {
            Option::Some(rec) => {
                let ghost old_out = out@;
                out.push(rec);
                proof {
                    assert(spec_record_views(out@) =~= spec_record_views(old_out).push(rec@));
                }
            },
            Option::None => {},
        }
        i += 1;
        proof {
            let longer = all.take(i as int);
            assert(longer.drop_last() =~= prefix);
            assert(longer.last() == all[i - 1]);
        }
    }
    proof {
        assert(all.take(nodes@.len() as int) =~= all);
    }
    out
}

} // verus!
