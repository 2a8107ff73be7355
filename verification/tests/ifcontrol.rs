use netif::flags::IfFlags;
use netif::ifcontrol::{
    alias_request, bridge_member_request, bridge_port_request, collect_ifaces, down_flags,
    find_by_name, has_group, ioctl_error, is_up, link_step, probe_driver, probe_group,
    promiscuous_flags, str_eq, up_flags, FlagAction, FlagChange, IfAddrEntry, IfAddrKind,
    IfError, IpAddress, Link, LinkProbe, LinkStep, NixError, ENXIO,
};

#[test]
fn unknown_device_is_not_found() {
    assert!(matches!(ioctl_error(NixError::Sys { errno: ENXIO }), IfError::NotFound));
    assert!(matches!(
        ioctl_error(NixError::Sys { errno: 1 }),
        IfError::Nix(NixError::Sys { errno: 1 })
    ));
    assert!(matches!(ioctl_error(NixError::InvalidPath), IfError::Nix(NixError::InvalidPath)));
}

#[test]
fn up_means_up_and_running() {
    assert!(is_up(IfFlags::from_bits_truncate(0x41)));
    assert!(!is_up(IfFlags::from_bits_truncate(0x1)));
    assert!(!is_up(IfFlags::from_bits_truncate(0x40)));
}

#[test]
fn up_and_down_touch_only_up_and_running() {
    let f = IfFlags::from_bits_truncate(0x1008);
    assert_eq!(up_flags(f).bits(), 0x1049);
    assert!(is_up(up_flags(f)));
    let g = IfFlags::from_bits_truncate(0x1049);
    assert_eq!(down_flags(g).bits(), 0x1008);
    assert!(!is_up(down_flags(g)));
    assert_eq!(up_flags(up_flags(f)), up_flags(f));
}

#[test]
fn promiscuous_mode_sets_and_clears() {
    let f = IfFlags::from_bits_truncate(0x41);
    assert_eq!(promiscuous_flags(f, true).bits(), 0x141);
    assert_eq!(promiscuous_flags(promiscuous_flags(f, true), false).bits(), 0x41);
}

#[test]
fn bringing_up_an_up_interface_writes_nothing() {
    let mut c = FlagChange::up();
    assert_eq!(c.start(), FlagAction::ReadFlags);
    assert_eq!(c.flags_read(IfFlags::from_bits_truncate(0x41)), FlagAction::Done);
}

#[test]
fn bringing_up_a_down_interface_reads_again_then_writes() {
    let mut c = FlagChange::up();
    assert_eq!(c.flags_read(IfFlags::from_bits_truncate(0x2)), FlagAction::ReadFlags);
    assert_eq!(
        c.flags_read(IfFlags::from_bits_truncate(0x1002)),
        FlagAction::WriteFlags(IfFlags::from_bits_truncate(0x1043))
    );
    assert!(c.finished);
}

#[test]
fn bringing_down_follows_the_same_pattern() {
    let mut c = FlagChange::down();
    assert_eq!(c.flags_read(IfFlags::from_bits_truncate(0x2)), FlagAction::Done);
    let mut d = FlagChange::down();
    assert_eq!(d.flags_read(IfFlags::from_bits_truncate(0x43)), FlagAction::ReadFlags);
    assert_eq!(
        d.flags_read(IfFlags::from_bits_truncate(0x43)),
        FlagAction::WriteFlags(IfFlags::from_bits_truncate(0x2))
    );
}

#[test]
fn promiscuous_change_writes_after_one_read() {
    let mut c = FlagChange::promiscuous(true);
    assert_eq!(
        c.flags_read(IfFlags::from_bits_truncate(0x41)),
        FlagAction::WriteFlags(IfFlags::from_bits_truncate(0x141))
    );
}

fn e(name: &str, flags: i32, address: Option<IfAddrKind>) -> IfAddrEntry {
    IfAddrEntry {
        interface_name: name.to_string(),
        flags: IfFlags::from_bits_truncate(flags),
        address,
    }
}

#[test]
fn address_list_becomes_interfaces() {
    let entries = vec![
        e("lo", 0x49, Some(IfAddrKind::Link([0, 0, 0, 0, 0, 0]))),
        e("eth0", 0x1003, Some(IfAddrKind::Link([2, 0, 0, 0, 0, 1]))),
        e("lo", 0x49, Some(IfAddrKind::Inet(IpAddress::V4([127, 0, 0, 1])))),
        e("eth0", 0x1043, Some(IfAddrKind::Inet(IpAddress::V4([10, 0, 0, 2])))),
        e("eth0", 0x1043, Some(IfAddrKind::Other)),
        e("eth0", 0x1043, Some(IfAddrKind::Inet(IpAddress::V6([0xfe, 0x80, 0, 0, 0, 0, 0, 0, 0, 0, 0, 0, 0, 0, 0, 1])))),
        e("tun0", 0x51, None),
    ];
    let ifaces = collect_ifaces(&entries);
    assert_eq!(ifaces.len(), 3);
    assert_eq!(ifaces[0].ifname, "lo");
    assert_eq!(ifaces[0].hw_addr, None);
    assert_eq!(ifaces[0].ip_addrs.len(), 1);
    assert_eq!(ifaces[1].ifname, "eth0");
    assert_eq!(ifaces[1].flags.bits(), 0x1043);
    assert_eq!(ifaces[1].hw_addr, Some([2, 0, 0, 0, 0, 1]));
    assert_eq!(ifaces[1].ip_addrs.len(), 2);
    assert!(matches!(ifaces[1].ip_addrs[0], IpAddress::V4([10, 0, 0, 2])));
    assert!(matches!(ifaces[1].ip_addrs[1], IpAddress::V6(_)));
    assert_eq!(ifaces[2].ifname, "tun0");
    assert!(ifaces[2].ip_addrs.is_empty());
    assert_eq!(find_by_name(&ifaces, &"eth0".to_string()).unwrap(), 1);
    assert!(matches!(find_by_name(&ifaces, &"not_exist".to_string()), Err(IfError::NotFound)));
}

#[test]
fn last_link_address_wins() {
    let entries = vec![
        e("eth1", 0x3, Some(IfAddrKind::Link([1, 2, 3, 4, 5, 6]))),
        e("eth1", 0x3, Some(IfAddrKind::Link([0, 0, 0, 0, 0, 0]))),
    ];
    assert_eq!(collect_ifaces(&entries)[0].hw_addr, None);
}

#[test]
fn link_kind_is_asked_in_order() {
    let lo = IfFlags::from_bits_truncate(0x49);
    assert_eq!(link_step(lo, &[]), LinkStep::Decided(Link::Loopback));
    let f = IfFlags::from_bits_truncate(0x1043);
    assert_eq!(link_step(f, &[]), LinkStep::Probe(LinkProbe::Bridge));
    assert_eq!(link_step(f, &[true]), LinkStep::Decided(Link::Bridge));
    assert_eq!(link_step(f, &[false]), LinkStep::Probe(LinkProbe::Tap));
    assert_eq!(link_step(f, &[false, true]), LinkStep::Decided(Link::Tap));
    assert_eq!(link_step(f, &[false, false]), LinkStep::Probe(LinkProbe::Tun));
    assert_eq!(link_step(f, &[false, false, true]), LinkStep::Decided(Link::Tun));
    assert_eq!(link_step(f, &[false, false, false]), LinkStep::Decided(Link::Ethernet));
}

#[test]
fn groups_and_drivers_answer_probes() {
    let groups = vec!["all".to_string(), "tap".to_string()];
    assert!(has_group(&groups, probe_group(LinkProbe::Tap)));
    assert!(!has_group(&groups, probe_group(LinkProbe::Bridge)));
    assert!(probe_driver(LinkProbe::Bridge, "bridge", ""));
    assert!(probe_driver(LinkProbe::Tun, "tun", "tun"));
    assert!(!probe_driver(LinkProbe::Tun, "tun", "tap"));
    assert!(probe_driver(LinkProbe::Tap, "tun", "tap"));
    assert!(!probe_driver(LinkProbe::Tap, "e1000", "tap"));
    assert!(str_eq("é", "é"));
    assert!(!str_eq("tun", "tun0"));
}

#[test]
fn bridge_requests() {
    let req = bridge_port_request("br0", 7).unwrap();
    assert_eq!(req.get_name().unwrap(), "br0");
    assert_eq!(req.get_iface_index(), 7);
    let (drv, member) = bridge_member_request("bridge0", "tap1", true).unwrap();
    assert_eq!(drv.get_name().unwrap(), "bridge0");
    assert_eq!(drv.ifd_cmd, 0);
    assert_eq!(drv.ifd_len, 80);
    assert_eq!(member.get_name().unwrap(), "tap1");
    let (drv, _) = bridge_member_request("bridge0", "tap1", false).unwrap();
    assert_eq!(drv.ifd_cmd, 1);
}

#[test]
fn request_with_long_name_fails_as_io_error() {
    match bridge_port_request("bridge-with-a-long-name", 1) {
        Err(IfError::Io(io)) => {
            assert_eq!(io.raw_os_error, None);
            assert_eq!(io.message, "name too long: 24 while max is 16");
        }
        _ => panic!("expected an I/O error"),
    }
    match alias_request("a\0", [0; 16], [0; 16], [0; 16]) {
        Err(IfError::Io(io)) => assert_eq!(io.message, "malformed interface name"),
        _ => panic!("expected an I/O error"),
    }
}

/// The address list of a system with its loopback interface only.
fn loopback_system() -> Vec<IfAddrEntry> {
    vec![
        e("lo", 0x49, Some(IfAddrKind::Link([0, 0, 0, 0, 0, 0]))),
        e("lo", 0x49, Some(IfAddrKind::Inet(IpAddress::V4([127, 0, 0, 1])))),
    ]
}

#[test]
fn test_not_found() {
    let ifaces = collect_ifaces(&loopback_system());
    match find_by_name(&ifaces, &"not_exist".to_string()) {
        Err(IfError::NotFound) => {}
        _ => panic!("bad error type"),
    }
}

#[test]
fn test_found() {
    let ifaces = collect_ifaces(&loopback_system());
    match find_by_name(&ifaces, &"lo".to_string()) {
        Ok(_) => {}
        _ => panic!("bad error type"),
    }
}

#[test]
fn test_is_up() {
    let ifaces = collect_ifaces(&loopback_system());
    let k = find_by_name(&ifaces, &"lo".to_string()).unwrap();
    assert!(is_up(ifaces[k].flags));
}

#[test]
fn test_up() {
    let ifaces = collect_ifaces(&loopback_system());
    let k = find_by_name(&ifaces, &"lo".to_string()).unwrap();
    let mut change = FlagChange::up();
    assert_eq!(change.start(), FlagAction::ReadFlags);
    assert_eq!(change.flags_read(ifaces[k].flags), FlagAction::Done);
}

#[test]
fn test_list_all() {
    let ifaces = collect_ifaces(&loopback_system());
    println!("Ifaces: {:?}", ifaces);
    assert_eq!(ifaces.len(), 1);
    assert_eq!(ifaces[0].ifname, "lo");
}
