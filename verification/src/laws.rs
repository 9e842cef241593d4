//! What holds of every enumeration, whatever the OS handed over: the laws of
//! the record collections, stated over the spec functions the backends'
//! contracts use and proved here.

use vstd::prelude::*;

use crate::addr::IfAddrView;
use crate::addr::IpAddress;
use crate::addr::spec_is_link_local_v4;
use crate::addr::spec_is_link_local_v6;
use crate::name::lemma_name_chars_wellformed;
use crate::posix::PosixNodeView;
use crate::posix::spec_collect_posix;
use crate::posix::spec_posix_record;
use crate::windows::WindowsAdapterView;
use crate::windows::spec_collect_adapter;
use crate::windows::spec_collect_windows;
use crate::windows::spec_windows_record;

verus! {

/// A record's name is usable text: at least one character, none of them NUL.
pub open spec fn spec_name_wellformed(r: IfAddrView) -> bool {
    &&& r.name.len() > 0
    &&& forall|j: int| 0 <= j < r.name.len() ==> #[trigger] r.name[j] != '\0'
}

/// A record's address is not an IPv6 link-local address (fe80::/10).
pub open spec fn spec_not_v6_link_local(r: IfAddrView) -> bool {
    !(r.addr matches IpAddress::V6(a) && spec_is_link_local_v6(a))
}

/// A record's address is not an IPv4 link-local address (169.254.0.0/16).
pub open spec fn spec_not_v4_link_local(r: IfAddrView) -> bool {
    !(r.addr matches IpAddress::V4(a) && spec_is_link_local_v4(a))
}

/// Any record a POSIX list node yields has a usable name and no IPv6
/// link-local address.
pub proof fn lemma_posix_record_wellformed(n: PosixNodeView)
    ensures
        spec_posix_record(n) matches Some(r) ==> spec_name_wellformed(r)
            && spec_not_v6_link_local(r),
{
    if spec_posix_record(n) is Some {
        lemma_name_chars_wellformed(n.name);
    }
}

/// Any record a unicast-address node of a Windows adapter yields has a
/// usable name and neither an IPv6 nor an IPv4 link-local address.
pub proof fn lemma_windows_record_wellformed(name: Seq<u8>, sa: Option<crate::decode::RawSockAddr>)
    ensures
        spec_windows_record(name, sa) matches Some(r) ==> spec_name_wellformed(r)
            && spec_not_v6_link_local(r) && spec_not_v4_link_local(r),
{
    if spec_windows_record(name, sa) is Some {
        lemma_name_chars_wellformed(name);
    }
}

/// Every record of a POSIX enumeration is the record of one of its list
/// nodes: collection invents nothing.
pub proof fn lemma_collect_posix_membership(nodes: Seq<PosixNodeView>, i: int)
    requires
        0 <= i < spec_collect_posix(nodes).len(),
    ensures
        exists|k: int|
            0 <= k < nodes.len() && spec_posix_record(#[trigger] nodes[k]) == Some(
                spec_collect_posix(nodes)[i],
            ),
    decreases nodes.len(),
{
    let rest = spec_collect_posix(nodes.drop_last());
    match spec_posix_record(nodes.last()) {
        Some(r) => {
            if i < rest.len() {
                lemma_collect_posix_membership(nodes.drop_last(), i);
                let k = choose|k: int|
                    0 <= k < nodes.drop_last().len() && spec_posix_record(
                        #[trigger] nodes.drop_last()[k],
                    ) == Some(rest[i]);
                assert(nodes[k] == nodes.drop_last()[k]);
            } else {
                assert(spec_collect_posix(nodes)[i] == r);
                assert(spec_posix_record(nodes[nodes.len() - 1]) == Some(r));
            }
        },
        None => {
            lemma_collect_posix_membership(nodes.drop_last(), i);
            let k = choose|k: int|
                0 <= k < nodes.drop_last().len() && spec_posix_record(
                    #[trigger] nodes.drop_last()[k],
                ) == Some(rest[i]);
            assert(nodes[k] == nodes.drop_last()[k]);
        },
    }
}

/// Every record one adapter yields is the record of one node of its
/// unicast-address list.
pub proof fn lemma_collect_adapter_membership(
    name: Seq<u8>,
    unicast: Seq<Option<crate::decode::RawSockAddr>>,
    i: int,
)
    requires
        0 <= i < spec_collect_adapter(name, unicast).len(),
    ensures
        exists|j: int|
            0 <= j < unicast.len() && spec_windows_record(name, #[trigger] unicast[j]) == Some(
                spec_collect_adapter(name, unicast)[i],
            ),
    decreases unicast.len(),
{
    let rest = spec_collect_adapter(name, unicast.drop_last());
    match spec_windows_record(name, unicast.last()) {
        Some(r) => {
            if i < rest.len() {
                lemma_collect_adapter_membership(name, unicast.drop_last(), i);
                let j = choose|j: int|
                    0 <= j < unicast.drop_last().len() && spec_windows_record(
                        name,
                        #[trigger] unicast.drop_last()[j],
                    ) == Some(rest[i]);
                assert(unicast[j] == unicast.drop_last()[j]);
            } else {
                assert(spec_collect_adapter(name, unicast)[i] == r);
                assert(spec_windows_record(name, unicast[unicast.len() - 1]) == Some(r));
            }
        },
        None => {
            lemma_collect_adapter_membership(name, unicast.drop_last(), i);
            let j = choose|j: int|
                0 <= j < unicast.drop_last().len() && spec_windows_record(
                    name,
                    #[trigger] unicast.drop_last()[j],
                ) == Some(rest[i]);
            assert(unicast[j] == unicast.drop_last()[j]);
        },
    }
}

/// Every record of a Windows enumeration is the record of one unicast
/// address of one of its adapters: collection invents nothing.
pub proof fn lemma_collect_windows_membership(adapters: Seq<WindowsAdapterView>, i: int)
    requires
        0 <= i < spec_collect_windows(adapters).len(),
    ensures
        exists|k: int, j: int|
            0 <= k < adapters.len() && 0 <= j < (#[trigger] adapters[k]).unicast.len()
                && spec_windows_record(adapters[k].name, #[trigger] adapters[k].unicast[j]) == Some(
                spec_collect_windows(adapters)[i],
            ),
    decreases adapters.len(),
{
    let rest = spec_collect_windows(adapters.drop_last());
    let own = spec_collect_adapter(adapters.last().name, adapters.last().unicast);
    if i < rest.len() {
        lemma_collect_windows_membership(adapters.drop_last(), i);
        let (k, j) = choose|k: int, j: int|
            0 <= k < adapters.drop_last().len() && 0 <= j < (#[trigger] adapters.drop_last()[k]).unicast.len()
                && spec_windows_record(
                adapters.drop_last()[k].name,
                #[trigger] adapters.drop_last()[k].unicast[j],
            ) == Some(rest[i]);
        assert(adapters[k] == adapters.drop_last()[k]);
        assert(spec_collect_windows(adapters)[i] == rest[i]);
    } else {
        lemma_collect_adapter_membership(
            adapters.last().name,
            adapters.last().unicast,
            i - rest.len(),
        );
        let j = choose|j: int|
            0 <= j < adapters.last().unicast.len() && spec_windows_record(
                adapters.last().name,
                #[trigger] adapters.last().unicast[j],
            ) == Some(own[i - rest.len()]);
        assert(adapters[adapters.len() - 1] == adapters.last());
        assert(spec_collect_windows(adapters)[i] == own[i - rest.len()]);
    }
}

/// No record of a POSIX enumeration has an empty name or a name with an
/// embedded NUL character, and none has an IPv6 link-local address
/// (fe80::/10).
pub proof fn lemma_posix_enumeration_wellformed(nodes: Seq<PosixNodeView>)
    ensures
        forall|i: int|
            0 <= i < spec_collect_posix(nodes).len() ==> spec_name_wellformed(
                #[trigger] spec_collect_posix(nodes)[i],
            ) && spec_not_v6_link_local(spec_collect_posix(nodes)[i]),
{
    assert forall|i: int| 0 <= i < spec_collect_posix(nodes).len() implies spec_name_wellformed(
        #[trigger] spec_collect_posix(nodes)[i],
    ) && spec_not_v6_link_local(spec_collect_posix(nodes)[i]) by {
        lemma_collect_posix_membership(nodes, i);
        let k = choose|k: int|
            0 <= k < nodes.len() && spec_posix_record(#[trigger] nodes[k]) == Some(
                spec_collect_posix(nodes)[i],
            );
        lemma_posix_record_wellformed(nodes[k]);
    }
}

/// No record of a Windows enumeration has an empty name or a name with an
/// embedded NUL character, none has an IPv6 link-local address (fe80::/10),
/// and none has an IPv4 link-local address (169.254.0.0/16).
pub proof fn lemma_windows_enumeration_wellformed(adapters: Seq<WindowsAdapterView>)
    ensures
        forall|i: int|
            0 <= i < spec_collect_windows(adapters).len() ==> spec_name_wellformed(
                #[trigger] spec_collect_windows(adapters)[i],
            ) && spec_not_v6_link_local(spec_collect_windows(adapters)[i])
                && spec_not_v4_link_local(spec_collect_windows(adapters)[i]),
{
    assert forall|i: int|
        0 <= i < spec_collect_windows(adapters).len() implies spec_name_wellformed(
        #[trigger] spec_collect_windows(adapters)[i],
    ) && spec_not_v6_link_local(spec_collect_windows(adapters)[i]) && spec_not_v4_link_local(
        spec_collect_windows(adapters)[i],
    ) by {
        lemma_collect_windows_membership(adapters, i);
        let (k, j) = choose|k: int, j: int|
            0 <= k < adapters.len() && 0 <= j < (#[trigger] adapters[k]).unicast.len()
                && spec_windows_record(adapters[k].name, #[trigger] adapters[k].unicast[j]) == Some(
                spec_collect_windows(adapters)[i],
            );
        lemma_windows_record_wellformed(adapters[k].name, adapters[k].unicast[j]);
    }
}

/// A record the policy accepts is never lost: a POSIX list node that yields
/// a record (for one with a loopback interface, the node carrying its
/// loopback address) puts that record into the enumeration.
pub proof fn lemma_posix_accepted_included(nodes: Seq<PosixNodeView>, k: int)
    requires
        0 <= k < nodes.len(),
        spec_posix_record(nodes[k]) is Some,
    ensures
        spec_collect_posix(nodes).contains(spec_posix_record(nodes[k]).unwrap()),
    decreases nodes.len(),
{
    let rest = spec_collect_posix(nodes.drop_last());
    let out = spec_collect_posix(nodes);
    if k == nodes.len() - 1 {
        assert(out.last() == spec_posix_record(nodes[k]).unwrap());
        assert(out.contains(spec_posix_record(nodes[k]).unwrap())) by {
            assert(out[out.len() - 1] == spec_posix_record(nodes[k]).unwrap());
        }
    } else {
        assert(nodes.drop_last()[k] == nodes[k]);
        lemma_posix_accepted_included(nodes.drop_last(), k);
        let r = spec_posix_record(nodes[k]).unwrap();
        let i = choose|i: int| 0 <= i < rest.len() && rest[i] == r;
        assert(out[i] == r);
    }
}

/// The same on Windows: a unicast address that yields a record puts that
/// record into the enumeration.
pub proof fn lemma_windows_accepted_included(adapters: Seq<WindowsAdapterView>, k: int, j: int)
    requires
        0 <= k < adapters.len(),
        0 <= j < adapters[k].unicast.len(),
        spec_windows_record(adapters[k].name, adapters[k].unicast[j]) is Some,
    ensures
        spec_collect_windows(adapters).contains(
            spec_windows_record(adapters[k].name, adapters[k].unicast[j]).unwrap(),
        ),
    decreases adapters.len(),
{
    let rest = spec_collect_windows(adapters.drop_last());
    let out = spec_collect_windows(adapters);
    let r = spec_windows_record(adapters[k].name, adapters[k].unicast[j]).unwrap();
    if k == adapters.len() - 1 {
        lemma_adapter_accepted_included(adapters[k].name, adapters[k].unicast, j);
        let own = spec_collect_adapter(adapters[k].name, adapters[k].unicast);
        let i = choose|i: int| 0 <= i < own.len() && own[i] == r;
        assert(out[rest.len() + i] == r);
    } else {
        assert(adapters.drop_last()[k] == adapters[k]);
        lemma_windows_accepted_included(adapters.drop_last(), k, j);
        let i = choose|i: int| 0 <= i < rest.len() && rest[i] == r;
        assert(out[i] == r);
    }
}

/// Within one adapter: a unicast address that yields a record puts that
/// record into the adapter's records.
pub proof fn lemma_adapter_accepted_included(
    name: Seq<u8>,
    unicast: Seq<Option<crate::decode::RawSockAddr>>,
    j: int,
)
    requires
        0 <= j < unicast.len(),
        spec_windows_record(name, unicast[j]) is Some,
    ensures
        spec_collect_adapter(name, unicast).contains(spec_windows_record(name, unicast[j]).unwrap()),
    decreases unicast.len(),
{
    let rest = spec_collect_adapter(name, unicast.drop_last());
    let out = spec_collect_adapter(name, unicast);
    let r = spec_windows_record(name, unicast[j]).unwrap();
    if j == unicast.len() - 1 {
        assert(out[out.len() - 1] == r);
    } else {
        assert(unicast.drop_last()[j] == unicast[j]);
        lemma_adapter_accepted_included(name, unicast.drop_last(), j);
        let i = choose|i: int| 0 <= i < rest.len() && rest[i] == r;
        assert(out[i] == r);
    }
}

/// Two enumerations over the same snapshot of OS records yield the same
/// records: any difference between two immediately successive calls can come
/// only from the OS handing over different data.
pub proof fn lemma_posix_enumeration_deterministic(a: Seq<PosixNodeView>, b: Seq<PosixNodeView>)
    requires
        a == b,
    ensures
        spec_collect_posix(a) == spec_collect_posix(b),
{
}

/// The same on Windows.
pub proof fn lemma_windows_enumeration_deterministic(
    a: Seq<WindowsAdapterView>,
    b: Seq<WindowsAdapterView>,
)
    requires
        a == b,
    ensures
        spec_collect_windows(a) == spec_collect_windows(b),
{
}

} // verus!
