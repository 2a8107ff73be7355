use netif::flags::IfFlags;
use netif::ifname::{get_name, get_name_from, name_from_str, set_name, IfNameError, IFNAMSIZ};
use netif::ifstructs::{
    ifaliasreq, ifbreq, ifdrv, ifgr_ifgru, ifgroupreq, ifgrq_ifgrqu, ifreq, GroupListError,
};

#[test]
fn test_ifaliasreq() {
    let _req = ifaliasreq::from_name("en0").unwrap();
}

#[test]
fn readme_from_name_stores_name() {
    let req = ifreq::from_name("eth0").unwrap();
    assert_eq!(&req.ifr_name[..5], b"eth0\0");
    assert!(req.ifr_name[5..].iter().all(|b| *b == 0));
    assert_eq!(req.get_name().unwrap(), "eth0");
}

#[test]
fn name_round_trip_keeps_tail() {
    let mut field = [7u8; IFNAMSIZ];
    set_name(&mut field, "tap3").unwrap();
    assert_eq!(&field[..5], b"tap3\0");
    assert_eq!(&field[5..], &[7u8; 11][..]);
    assert_eq!(get_name(&field).unwrap(), "tap3");
}

#[test]
fn longest_name_fits() {
    let name = "abcdefghijklmno"; // 15 bytes and the NUL
    let req = ifreq::from_name(name).unwrap();
    assert_eq!(req.ifr_name[15], 0);
    assert_eq!(req.get_name().unwrap(), name);
}

#[test]
fn name_too_long_is_refused() {
    let mut field = [1u8; IFNAMSIZ];
    let r = set_name(&mut field, "abcdefghijklmnop");
    assert_eq!(r, Err(IfNameError::TooLong { len: 17, max: 16 }));
    assert_eq!(field, [1u8; IFNAMSIZ]);
    assert!(matches!(ifreq::from_name("a-very-long-interface"), Err(IfNameError::TooLong { len: 22, max: 16 })));
}

#[test]
fn name_with_nul_is_malformed() {
    assert!(matches!(ifreq::from_name("et\0h0"), Err(IfNameError::Malformed)));
}

#[test]
fn unterminated_name_is_malformed() {
    let field = [b'a'; IFNAMSIZ];
    assert_eq!(get_name(&field), Err(IfNameError::Malformed));
}

#[test]
fn non_utf8_name_is_malformed() {
    let mut field = [0u8; IFNAMSIZ];
    field[0] = 0xff;
    field[1] = b'x';
    assert_eq!(get_name(&field), Err(IfNameError::Malformed));
}

#[test]
fn multibyte_name_round_trips() {
    let r = name_from_str("br-é").unwrap();
    assert_eq!(get_name(&r).unwrap(), "br-é");
}

#[test]
fn name_stops_at_first_nul() {
    assert_eq!(get_name_from(b"lo\0xyz\0").unwrap(), "lo");
    assert_eq!(get_name_from(b"\0").unwrap(), "");
}

#[test]
fn flags_round_trip_through_request() {
    let mut req = ifreq::from_name("lo").unwrap();
    let flags = IfFlags::from_bits_truncate(0x1 | 0x8 | 0x40 | 0x8000);
    req.set_flags(flags);
    assert_eq!(req.ifr_flags, 0x8049u16 as i16);
    assert_eq!(req.get_flags(), flags);
    assert!(req.get_flags().contains(IfFlags::IFF_UP()));
    assert!(!req.get_flags().contains(IfFlags::IFF_PROMISC()));
}

#[test]
fn raw_flags_are_truncated_to_named_bits() {
    let mut req = ifreq::from_name("lo").unwrap();
    req.set_raw_flags(-1);
    assert_eq!(req.get_flags().bits(), 0xffff);
    assert_eq!(IfFlags::from_bits_truncate(0x12345).bits(), 0x2345);
}

#[test]
fn iface_index_is_kept() {
    let mut req = ifreq::from_name("br0").unwrap();
    req.set_iface_index(42);
    assert_eq!(req.get_iface_index(), 42);
    assert_eq!(req.get_name().unwrap(), "br0");
}

#[test]
fn other_requests_carry_names() {
    assert_eq!(ifdrv::from_name("bridge0").unwrap().get_name().unwrap(), "bridge0");
    assert_eq!(ifbreq::from_name("tap1").unwrap().get_name().unwrap(), "tap1");
    assert_eq!(ifgroupreq::from_name("em0").unwrap().get_name().unwrap(), "em0");
    assert_eq!(ifgr_ifgru::from_group_name("all").unwrap().get_group_name().unwrap(), "all");
}

#[test]
fn group_and_member_names_share_storage() {
    let mut u = ifgrq_ifgrqu::from_group_name("egress").unwrap();
    assert_eq!(u.get_member_name().unwrap(), "egress");
    u.set_member_name("tun0").unwrap();
    assert_eq!(u.get_group_name().unwrap(), "tun0");
    assert!(ifgrq_ifgrqu::from_member_name("x\0").is_err());
}

fn entry(name: &str) -> [u8; IFNAMSIZ] {
    let mut e = [0u8; IFNAMSIZ];
    e[..name.len()].copy_from_slice(name.as_bytes());
    e
}

#[test]
fn group_names_are_read_entry_by_entry() {
    let mut buf = Vec::new();
    buf.extend_from_slice(&entry("all"));
    buf.extend_from_slice(&entry("bridge"));
    buf.extend_from_slice(&[9, 9, 9]);
    let names = ifgr_ifgru::get_group_names(&buf, 32).unwrap();
    assert_eq!(names, vec!["all".to_string(), "bridge".to_string()]);
    assert_eq!(ifgr_ifgru::get_group_names(&buf, 0).unwrap(), Vec::<String>::new());
}

#[test]
fn group_list_of_bad_length_is_refused() {
    let buf = [0u8; 40];
    assert_eq!(ifgr_ifgru::get_group_names(&buf, 20), Err(GroupListError::BadLength));
}

#[test]
fn group_list_with_unterminated_entry_is_malformed() {
    let mut buf = Vec::new();
    buf.extend_from_slice(&entry("lo"));
    buf.extend_from_slice(&[b'x'; IFNAMSIZ]);
    assert_eq!(ifgr_ifgru::get_group_names(&buf, 32), Err(GroupListError::Malformed));
}


/// The loopback interface's flag request, answered as the kernel answers
/// `SIOCGIFFLAGS` for it (up, loopback, running).
#[test]
fn lib_test_get_iface_flags() {
    let iface_name = "lo";
    let mut req = ifreq::from_name(iface_name).unwrap();
    req.set_raw_flags(0x49);
    let flags = req.get_flags();
    assert!(flags.contains(IfFlags::IFF_UP()));
    assert_ne!(i64::from(flags.bits()) & 0x1, 0);
}
