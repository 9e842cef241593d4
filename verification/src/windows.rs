//! The Windows backend: record assembly from the adapter list an
//! `GetAdaptersAddresses`-style OS call writes into a caller-allocated
//! buffer, after the platform adapter has read it out into plain values.
//! This backend filters link-local addresses of both families and leaves
//! netmask and broadcast at their sentinel defaults.

use vstd::prelude::*;

use crate::addr::IfAddr;
use crate::addr::IfAddrView;
use crate::addr::IpAddress;
use crate::addr::is_link_local_v4;
use crate::addr::spec_is_link_local_v4;
use crate::addr::spec_opt_record_view;
use crate::addr::spec_record_views;
use crate::addr::spec_unspecified;
use crate::addr::unspecified;
use crate::decode::RawSockAddr;
use crate::decode::decode_sockaddr;
use crate::decode::spec_decode_sockaddr;
use crate::name::name_from_bytes;
use crate::name::spec_name_chars;
use crate::name::spec_valid_name;

verus! {

/// One adapter of the OS's list, read out into plain values: the bytes of
/// its null-terminated name buffer, and the socket-address structure of each
/// node of its unicast-address list (`None` where a node's address pointer
/// was null).
pub struct WindowsAdapter {
    pub name: Vec<u8>,
    pub unicast: Vec<Option<RawSockAddr>>,
}

/// The mathematical content of a [`WindowsAdapter`].
#[verifier::ext_equal]
pub struct WindowsAdapterView {
    pub name: Seq<u8>,
    pub unicast: Seq<Option<RawSockAddr>>,
}

impl View for WindowsAdapter {
    type V = WindowsAdapterView;

    open spec fn view(&self) -> WindowsAdapterView {
        WindowsAdapterView { name: self.name@, unicast: self.unicast@ }
    }
}

/// The views of a sequence of adapters.
pub open spec fn spec_adapter_views(adapters: Seq<WindowsAdapter>) -> Seq<WindowsAdapterView> {
    adapters.map_values(|a: WindowsAdapter| a@)
}

/// The record one unicast-address node of one adapter yields, if any: none
/// when the adapter's name buffer is unusable, when the address is missing,
/// filtered at decode time, or of an unknown family, or when it is an IPv4
/// link-local address (169.254.0.0/16); otherwise a record whose netmask and
/// broadcast stay at the sentinel 0.0.0.0, which this backend does not
/// populate.
pub open spec fn spec_windows_record(name: Seq<u8>, sa: Option<RawSockAddr>) -> Option<
    IfAddrView,
> {
    if !spec_valid_name(name) {
        Option::None
    } else {
        match spec_decode_sockaddr(sa) {
            Option::None => Option::None,
            Option::Some(a) => {
                if a matches IpAddress::V4(v) && spec_is_link_local_v4(v) {
                    Option::None
                } else {
                    Option::Some(
                        IfAddrView {
                            name: spec_name_chars(name),
                            addr: a,
                            netmask: spec_unspecified(),
                            broadcast: spec_unspecified(),
                        },
                    )
                }
            },
        }
    }
}

/// The records one adapter's unicast-address list yields, in list order.
pub open spec fn spec_collect_adapter(name: Seq<u8>, unicast: Seq<Option<RawSockAddr>>) -> Seq<
    IfAddrView,
>
    decreases unicast.len(),
{
    if unicast.len() == 0 {
        Seq::empty()
    } else {
        let rest = spec_collect_adapter(name, unicast.drop_last());
        match spec_windows_record(name, unicast.last()) {
            Option::Some(r) => rest.push(r),
            Option::None => rest,
        }
    }
}

/// The records a whole adapter list yields: each adapter's records in
/// adapter order, each adapter's own records in unicast-list order.
pub open spec fn spec_collect_windows(adapters: Seq<WindowsAdapterView>) -> Seq<IfAddrView>
    decreases adapters.len(),
{
    if adapters.len() == 0 {
        Seq::empty()
    } else {
        spec_collect_windows(adapters.drop_last()) + spec_collect_adapter(
            adapters.last().name,
            adapters.last().unicast,
        )
    }
}

/// Assembles the record of one unicast-address node, or drops it: exactly
/// as [`spec_windows_record`] states.
pub fn windows_record(name: &Vec<u8>, sa: &Option<RawSockAddr>) -> (r: Option<IfAddr>)
    ensures
        spec_opt_record_view(r) == spec_windows_record(name@, *sa),
{
    let text = match name_from_bytes(name) {
        Option::Some(s) => s,
        Option::None => {
            return Option::None;
        },
    };
    let addr = match decode_sockaddr(sa) {
        Option::Some(a) => a,
        Option::None => {
            return Option::None;
        },
    };
    if let IpAddress::V4(v) = &addr {
        if is_link_local_v4(v) {
            return Option::None;
        }
    }
    let rec = IfAddr { name: text, addr, netmask: unspecified(), broadcast: unspecified() };
    proof {
        assert(rec@ =~= spec_windows_record(name@, *sa).unwrap());
    }
    Option::Some(rec)
}

/// Walks a whole adapter list and collects the records its unicast
/// addresses yield: exactly as [`spec_collect_windows`] states.
pub fn collect_windows_records(adapters: &Vec<WindowsAdapter>) -> (r: Vec<IfAddr>)
    ensures
        spec_record_views(r@) == spec_collect_windows(spec_adapter_views(adapters@)),
{
    let ghost all = spec_adapter_views(adapters@);
    let mut out: Vec<IfAddr> = Vec::new();
    let mut i: usize = 0;
    while i < adapters.len()
        invariant
            0 <= i <= adapters@.len(),
            all == spec_adapter_views(adapters@),
            spec_record_views(out@) == spec_collect_windows(all.take(i as int)),
        decreases adapters@.len() - i,
    {
        let adapter = &adapters[i];
        let ghost outer_prefix = spec_collect_windows(all.take(i as int));
        let mut j: usize = 0;
        while j < adapter.unicast.len()
            invariant
                0 <= j <= adapter.unicast@.len(),
                adapter == &adapters[i as int],
                0 <= i < adapters@.len(),
                all == spec_adapter_views(adapters@),
                outer_prefix == spec_collect_windows(all.take(i as int)),
                spec_record_views(out@) == outer_prefix + spec_collect_adapter(
                    adapter.name@,
                    adapter.unicast@.take(j as int),
                ),
            decreases adapter.unicast@.len() - j,
        {
            let ghost inner_prefix = adapter.unicast@.take(j as int);
            match windows_record(&adapter.name, &adapter.unicast[j]) {
                Option::Some(rec) => {
                    let ghost old_out = out@;
                    out.push(rec);
                    proof {
                        assert(spec_record_views(out@) =~= spec_record_views(old_out).push(rec@));
                    }
                },
                Option::None => {},
            }
            j += 1;
            proof {
                let longer = adapter.unicast@.take(j as int);
                assert(longer.drop_last() =~= inner_prefix);
                assert(longer.last() == adapter.unicast@[j - 1]);
                match spec_windows_record(adapter.name@, adapter.unicast@[j - 1]) {
                    Option::Some(r) => {
                        assert(outer_prefix + spec_collect_adapter(adapter.name@, inner_prefix).push(
                            r,
                        ) =~= outer_prefix + spec_collect_adapter(adapter.name@, longer));
                    },
                    Option::None => {},
                }
            }
        }
        i += 1;
        proof {
            let longer = all.take(i as int);
            assert(longer.drop_last() =~= all.take(i - 1));
            assert(longer.last() == all[i - 1]);
            assert(adapter.unicast@.take(adapter.unicast@.len() as int) =~= adapter.unicast@);
            assert(all[i - 1].name == adapter.name@);
            assert(all[i - 1].unicast == adapter.unicast@);
        }
    }
    proof {
        assert(all.take(adapters@.len() as int) =~= all);
    }
    out
}

} // verus!
