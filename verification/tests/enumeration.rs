use ifaddrs::addr::IfAddr;
use ifaddrs::addr::IpAddress;
use ifaddrs::addr::Ipv4Address;
use ifaddrs::addr::Ipv6Address;
use ifaddrs::decode::RawSockAddr;
use ifaddrs::decode::decode_sockaddr;
use ifaddrs::name::name_from_bytes;
use ifaddrs::posix::PosixNode;
use ifaddrs::posix::collect_posix_records;
use ifaddrs::posix::posix_record;

fn v4(o0: u8, o1: u8, o2: u8, o3: u8) -> IpAddress {
    IpAddress::V4(Ipv4Address { o0, o1, o2, o3 })
}

fn v6(s: [u16; 8]) -> IpAddress {
    IpAddress::V6(Ipv6Address {
        s0: s[0],
        s1: s[1],
        s2: s[2],
        s3: s[3],
        s4: s[4],
        s5: s[5],
        s6: s[6],
        s7: s[7],
    })
}

/// The stored 32-bit IPv4 field for the given dotted-quad octets: network
/// byte order, least-significant byte first.
fn s_addr_of(o0: u8, o1: u8, o2: u8, o3: u8) -> u32 {
    (o0 as u32) | ((o1 as u32) << 8) | ((o2 as u32) << 16) | ((o3 as u32) << 24)
}

/// The stored form of the eight presentation-order groups: each byte-swapped.
fn stored_groups(s: [u16; 8]) -> RawSockAddr {
    let g: Vec<u16> = s.iter().map(|x| x.swap_bytes()).collect();
    RawSockAddr::In6 {
        g0: g[0],
        g1: g[1],
        g2: g[2],
        g3: g[3],
        g4: g[4],
        g5: g[5],
        g6: g[6],
        g7: g[7],
    }
}

#[test]
fn decode_ipv4_dotted_quad() {
    let sa = Some(RawSockAddr::In4 { s_addr: s_addr_of(192, 168, 1, 1) });
    assert_eq!(decode_sockaddr(&sa), Some(v4(192, 168, 1, 1)));
}

#[test]
fn decode_ipv6_group_byte_swap() {
    let sa = Some(stored_groups([0x2001, 0x0db8, 0, 0, 0, 0, 0, 1]));
    assert_eq!(decode_sockaddr(&sa), Some(v6([0x2001, 0x0db8, 0, 0, 0, 0, 0, 1])));
}

#[test]
fn decode_null_pointer_is_no_value() {
    assert_eq!(decode_sockaddr(&None), None);
}

#[test]
fn decode_unknown_family_is_no_value() {
    assert_eq!(decode_sockaddr(&Some(RawSockAddr::Other)), None);
}

#[test]
fn decode_rejects_ipv6_link_local() {
    // fe80::1 — the first group is exactly the prefix.
    let sa = Some(stored_groups([0xfe80, 0, 0, 0, 0, 0, 0, 1]));
    assert_eq!(decode_sockaddr(&sa), None);
    // febf::1 still lies inside fe80::/10.
    let sb = Some(stored_groups([0xfebf, 0, 0, 0, 0, 0, 0, 1]));
    assert_eq!(decode_sockaddr(&sb), None);
    // fec0::1 lies just outside fe80::/10 and is kept.
    let sc = Some(stored_groups([0xfec0, 0, 0, 0, 0, 0, 0, 1]));
    assert_eq!(decode_sockaddr(&sc), Some(v6([0xfec0, 0, 0, 0, 0, 0, 0, 1])));
}

#[test]
fn decode_keeps_ipv6_loopback() {
    let sa = Some(stored_groups([0, 0, 0, 0, 0, 0, 0, 1]));
    assert_eq!(decode_sockaddr(&sa), Some(v6([0, 0, 0, 0, 0, 0, 0, 1])));
}

#[test]
fn name_rejects_empty_and_nul() {
    assert_eq!(name_from_bytes(&Vec::new()), None);
    assert_eq!(name_from_bytes(&vec![b'e', 0, b'h']), None);
    assert_eq!(name_from_bytes(&vec![b'e', b't', b'h', b'0']), Some(String::from("eth0")));
}

#[test]
fn name_rejects_non_ascii() {
    assert_eq!(name_from_bytes(&vec![b'e', 0x80, b'h']), None);
}

fn lo_node() -> PosixNode {
    PosixNode {
        name: b"lo".to_vec(),
        addr: Some(RawSockAddr::In4 { s_addr: s_addr_of(127, 0, 0, 1) }),
        netmask: Some(RawSockAddr::In4 { s_addr: s_addr_of(255, 0, 0, 0) }),
        flags: 0,
        broadcast: None,
    }
}

fn eth_node() -> PosixNode {
    PosixNode {
        name: b"eth0".to_vec(),
        addr: Some(RawSockAddr::In4 { s_addr: s_addr_of(192, 168, 1, 7) }),
        netmask: Some(RawSockAddr::In4 { s_addr: s_addr_of(255, 255, 255, 0) }),
        flags: 2,
        broadcast: Some(RawSockAddr::In4 { s_addr: s_addr_of(192, 168, 1, 255) }),
    }
}

#[test]
fn posix_record_full() {
    let rec = posix_record(&eth_node()).unwrap();
    assert_eq!(rec.name, "eth0");
    assert_eq!(rec.addr, v4(192, 168, 1, 7));
    assert_eq!(rec.netmask, v4(255, 255, 255, 0));
    assert_eq!(rec.broadcast, v4(192, 168, 1, 255));
}

#[test]
fn posix_record_without_broadcast_capability() {
    // The broadcast slot is populated only when the flag bitset advertises
    // broadcast capability; otherwise it stays at the sentinel.
    let mut node = eth_node();
    node.flags = 0;
    let rec = posix_record(&node).unwrap();
    assert_eq!(rec.broadcast, v4(0, 0, 0, 0));
}

#[test]
fn posix_record_missing_netmask_gets_sentinel() {
    let mut node = eth_node();
    node.netmask = None;
    let rec = posix_record(&node).unwrap();
    assert_eq!(rec.netmask, v4(0, 0, 0, 0));
    let mut other = eth_node();
    other.netmask = Some(RawSockAddr::Other);
    let rec2 = posix_record(&other).unwrap();
    assert_eq!(rec2.netmask, v4(0, 0, 0, 0));
}

#[test]
fn posix_record_missing_address_is_dropped() {
    let mut node = eth_node();
    node.addr = None;
    assert_eq!(posix_record(&node), None);
    let mut other = eth_node();
    other.addr = Some(RawSockAddr::Other);
    assert_eq!(posix_record(&other), None);
}

#[test]
fn posix_record_bad_name_is_dropped() {
    let mut node = eth_node();
    node.name = Vec::new();
    assert_eq!(posix_record(&node), None);
    let mut other = eth_node();
    other.name = vec![b'e', 0, b'0'];
    assert_eq!(posix_record(&other), None);
}

#[test]
fn posix_record_keeps_ipv4_link_local() {
    // The POSIX backend does not filter 169.254.0.0/16; only the Windows
    // backend does.
    let mut node = eth_node();
    node.addr = Some(RawSockAddr::In4 { s_addr: s_addr_of(169, 254, 3, 4) });
    let rec = posix_record(&node).unwrap();
    assert_eq!(rec.addr, v4(169, 254, 3, 4));
}

#[test]
fn collect_skips_dropped_nodes_and_keeps_loopback() {
    let bad = PosixNode {
        name: b"tun9".to_vec(),
        addr: None,
        netmask: None,
        flags: 0,
        broadcast: None,
    };
    let nodes = vec![bad, lo_node(), eth_node()];
    let records = collect_posix_records(&nodes);
    assert_eq!(records.len(), 2);
    assert_eq!(records[0].name, "lo");
    assert_eq!(records[0].addr, v4(127, 0, 0, 1));
    assert_eq!(records[1].name, "eth0");
    assert!(records.iter().any(|r| r.addr == v4(127, 0, 0, 1)));
}

#[test]
fn collect_one_record_per_configured_address() {
    // An interface with one v4 and one v6 address yields two records
    // sharing the name.
    let a4 = eth_node();
    let mut a6 = eth_node();
    a6.addr = Some(stored_groups([0x2001, 0x0db8, 0, 0, 0, 0, 0, 7]));
    a6.netmask = None;
    let records = collect_posix_records(&vec![a4, a6]);
    assert_eq!(records.len(), 2);
    assert_eq!(records[0].name, records[1].name);
    assert_eq!(records[1].addr, v6([0x2001, 0x0db8, 0, 0, 0, 0, 0, 7]));
}

#[test]
fn collect_twice_yields_equal_records() {
    let nodes = vec![lo_node(), eth_node()];
    let first = collect_posix_records(&nodes);
    let second = collect_posix_records(&nodes);
    assert_eq!(first, second);
}

#[test]
fn new_record_is_all_sentinels() {
    let rec = IfAddr::new();
    assert_eq!(rec.name, "");
    assert_eq!(rec.addr, v4(0, 0, 0, 0));
    assert_eq!(rec.netmask, v4(0, 0, 0, 0));
    assert_eq!(rec.broadcast, v4(0, 0, 0, 0));
}
