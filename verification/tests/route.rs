use netif::route::{
    check_route_messages, next_route_message, read_route_messages, read_rt_msghdr,
    read_sockaddr_if_flag,
    RtfFlags, RtmAddrFlags, RT_MSGHDR_SIZE,
};

fn header(msglen: u16, index: u16, flags: i32, addrs: i32) -> Vec<u8> {
    let mut h = vec![0u8; RT_MSGHDR_SIZE];
    h[0..2].copy_from_slice(&msglen.to_le_bytes());
    h[2] = 5; // version
    h[3] = 4; // RTM_GET
    h[4..6].copy_from_slice(&index.to_le_bytes());
    h[8..12].copy_from_slice(&flags.to_le_bytes());
    h[12..16].copy_from_slice(&addrs.to_le_bytes());
    h[16..20].copy_from_slice(&1234i32.to_le_bytes());
    h[48..56].copy_from_slice(&1500u64.to_le_bytes());
    h
}

fn sockaddr(tag: u8) -> Vec<u8> {
    let mut s = vec![0u8; 16];
    s[0] = 16;
    s[1] = 2;
    s[4] = tag;
    s
}

fn dump() -> Vec<u8> {
    let mut b = header(152 + 32 + 8, 2, 0x3, 0x3);
    b.extend(sockaddr(10));
    b.extend(sockaddr(20));
    b.extend(vec![0xaa; 8]);
    b.extend(header(152 + 16 * 3, 1, 0x1, 0x1 | 0x10 | 0x20));
    b.extend(sockaddr(30));
    b.extend(sockaddr(40));
    b.extend(sockaddr(50));
    b
}

#[test]
fn header_fields_are_little_endian() {
    let h = header(200, 3, 0x800, 0x7);
    let m = read_rt_msghdr(&h, 0);
    assert_eq!(m.rtm_msglen, 200);
    assert_eq!(m.rtm_version, 5);
    assert_eq!(m.rtm_type, 4);
    assert_eq!(m.rtm_index, 3);
    assert_eq!(m.rtm_flags, 0x800);
    assert_eq!(m.rtm_addrs, 0x7);
    assert_eq!(m.rtm_pid, 1234);
    assert_eq!(m.rtm_rmx.rmx_mtu, 1500);
}

#[test]
fn messages_are_read_in_order() {
    let b = dump();
    assert!(check_route_messages(&b));
    let msgs = read_route_messages(&b);
    assert_eq!(msgs.len(), 2);
    assert_eq!(msgs[0].iface_index, 2);
    assert_eq!(msgs[0].flags, RtfFlags::from_bits(0x3).unwrap());
    assert_eq!(msgs[0].destination.unwrap()[4], 10);
    assert_eq!(msgs[0].gateway.unwrap()[4], 20);
    assert!(msgs[0].netmask.is_none());
    assert!(msgs[0].iface_addr.is_none());
    assert_eq!(msgs[1].iface_index, 1);
    assert_eq!(msgs[1].destination.unwrap()[4], 30);
    // the interface-name address is skipped; the interface address follows it
    assert_eq!(msgs[1].iface_addr.unwrap()[4], 50);
    assert!(msgs[1].gateway.is_none());
}

#[test]
fn empty_dump_has_no_routes() {
    assert!(check_route_messages(&[]));
    assert!(read_route_messages(&[]).is_empty());
}

#[test]
fn truncated_dump_is_refused() {
    let b = dump();
    assert!(!check_route_messages(&b[..b.len() - 1]));
    assert!(!check_route_messages(&b[..100]));
}

#[test]
fn short_message_length_is_refused() {
    let mut b = header(152, 1, 0x1, 0x1);
    b.extend(sockaddr(1));
    assert!(!check_route_messages(&b));
}

#[test]
fn unknown_flag_bits_are_refused() {
    assert!(!check_route_messages(&header(152, 1, 0x100, 0)));
    assert!(!check_route_messages(&header(152, 1, 0x1, 0x100)));
    assert!(RtfFlags::from_bits(0x100).is_none());
    assert!(RtmAddrFlags::from_bits(0x400).is_none());
    assert!(RtfFlags::from_bits(0x80000000u32 as i32).is_some());
}

#[test]
fn sockaddr_is_read_only_when_announced() {
    let b = sockaddr(7);
    let mut i = 0usize;
    let flags = RtmAddrFlags::from_bits(0x2).unwrap();
    assert!(read_sockaddr_if_flag(&mut i, &b, flags, RtmAddrFlags::RTA_DST()).is_none());
    assert_eq!(i, 0);
    let a = read_sockaddr_if_flag(&mut i, &b, flags, RtmAddrFlags::RTA_GATEWAY()).unwrap();
    assert_eq!(a[4], 7);
    assert_eq!(i, 16);
}

#[test]
fn test_routes() {
    let b = dump();
    assert!(check_route_messages(&b), "routes!");
    let routes = read_route_messages(&b);
    println!("routes = {:?}", routes);
    assert_eq!(routes.len(), 2);
}

#[test]
fn dump_is_read_message_by_message() {
    let b = dump();
    let (first, next) = next_route_message(&b, 0).unwrap();
    assert_eq!(first.iface_index, 2);
    assert_eq!(next, 152 + 32 + 8);
    let (second, end) = next_route_message(&b, next).unwrap();
    assert_eq!(second.iface_index, 1);
    assert_eq!(end, b.len());
    assert!(next_route_message(&b, 3).is_none());
    let mut bad = dump();
    bad[next + 8..next + 12].copy_from_slice(&0x100i32.to_le_bytes());
    assert!(next_route_message(&bad, 0).is_some());
    assert!(next_route_message(&bad, next).is_none());
}
