use netif::ifcontrol::{IfError, IoError};
use netif::ifstructs::ifreq;
use netif::tap_windows::{
    adapter_name, ctl_code, driver_not_found, reported_mac, tap_control_code, tun_config,
    AdapterInfo, TAP_CONFIG_TUN, TAP_GET_MAC, TAP_SET_MEDIA_STATUS,
};
use netif::tuntap::{
    buffer_len_after_packet, datagram_written, reader_step, utun_name, CreateAction, CreateEvent, DevPath,
    LinuxAction, LinuxEvent, Native, TunTapError, TunTapOsx, VirtualInterfaceType, EBUSY,
    QueueRead, ReaderAction, MTU, RESERVE_AT_ONCE,
};

fn io(code: Option<i32>) -> IoError {
    IoError { raw_os_error: code, message: "x".to_string() }
}

fn driver(max: usize) -> TunTapOsx {
    TunTapOsx::new(
        Some(DevPath { dev_name: "tun".to_string(), max_num: max }),
        None,
    )
}

#[test]
fn kind_names() {
    assert_eq!(VirtualInterfaceType::Tun.to_string(), "tun");
    assert_eq!(VirtualInterfaceType::Tap.to_string(), "tap");
}

#[test]
fn default_driver_probes_unit_zero() {
    let d = TunTapOsx::default();
    assert_eq!(d.probe_tun().unwrap(), "/dev/tun0");
    assert_eq!(d.probe_tap().unwrap(), "/dev/tap0");
    assert!(driver(4).probe_tap().is_none());
}

#[test]
fn unconfigured_kind_is_not_supported() {
    match driver(4).create_tap(None) {
        Err(TunTapError::NotSupported { msg }) => assert_eq!(msg, "tap is not configured in backend"),
        _ => panic!("expected NotSupported"),
    }
}

#[test]
fn requested_unit_is_opened_and_brought_up() {
    let (mut c, a) = driver(4).create_tun(Some(12)).unwrap();
    assert!(matches!(a, CreateAction::CheckPath(ref p) if p == "/dev/tun12"));
    assert!(matches!(c.step(CreateEvent::PathChecked(true)), CreateAction::Open(ref p) if p == "/dev/tun12"));
    assert!(matches!(c.step(CreateEvent::Opened(Ok(()))), CreateAction::BringUp(ref n) if n == "tun12"));
    match c.step(CreateEvent::BroughtUp(Ok(()))) {
        CreateAction::Finish(Ok(info)) => {
            assert_eq!(info.name, "tun12");
            assert!(matches!(info.iface_type, VirtualInterfaceType::Tun));
        }
        _ => panic!("expected success"),
    }
}

#[test]
fn busy_requested_unit_is_busy() {
    let (mut c, _) = driver(4).create_tun(Some(1)).unwrap();
    c.step(CreateEvent::PathChecked(true));
    assert!(matches!(
        c.step(CreateEvent::Opened(Err(io(Some(EBUSY))))),
        CreateAction::Finish(Err(TunTapError::Busy))
    ));
}

#[test]
fn scan_skips_busy_units() {
    let (mut c, a) = driver(3).create_tun(None).unwrap();
    assert!(matches!(a, CreateAction::CheckPath(ref p) if p == "/dev/tun0"));
    c.step(CreateEvent::PathChecked(true));
    assert!(matches!(
        c.step(CreateEvent::Opened(Err(io(Some(EBUSY))))),
        CreateAction::CheckPath(ref p) if p == "/dev/tun1"
    ));
    c.step(CreateEvent::PathChecked(true));
    c.step(CreateEvent::Opened(Ok(())));
    assert!(matches!(
        c.step(CreateEvent::BroughtUp(Err(IfError::NotFound))),
        CreateAction::Finish(Err(TunTapError::IfControl(IfError::NotFound)))
    ));
}

#[test]
fn scan_of_busy_units_reaches_the_maximum() {
    let (mut c, _) = driver(2).create_tun(None).unwrap();
    c.step(CreateEvent::PathChecked(true));
    c.step(CreateEvent::Opened(Err(io(Some(EBUSY)))));
    c.step(CreateEvent::PathChecked(true));
    assert!(matches!(
        c.step(CreateEvent::Opened(Err(io(Some(EBUSY))))),
        CreateAction::Finish(Err(TunTapError::MaxNumberReached { max: 2 }))
    ));
    let (_, a) = driver(0).create_tun(None).unwrap();
    assert!(matches!(a, CreateAction::Finish(Err(TunTapError::MaxNumberReached { max: 0 }))));
}

#[test]
fn missing_device_file_stops_the_scan() {
    let (mut c, _) = driver(8).create_tun(None).unwrap();
    match c.step(CreateEvent::PathChecked(false)) {
        CreateAction::Finish(Err(TunTapError::NotSupported { msg })) => {
            assert_eq!(msg, "'/dev/tun0' not exists")
        }
        _ => panic!("expected NotSupported"),
    }
}

#[test]
fn other_open_errors_are_io_errors() {
    let (mut c, _) = driver(8).create_tun(None).unwrap();
    c.step(CreateEvent::PathChecked(true));
    assert!(matches!(
        c.step(CreateEvent::Opened(Err(io(Some(13))))),
        CreateAction::Finish(Err(TunTapError::Io(IoError { raw_os_error: Some(13), .. })))
    ));
}

#[test]
fn linux_arguments_are_checked() {
    let n = Native::new();
    assert!(matches!(n.create_tun(Some(""), 1), Err(TunTapError::BadArguments { ref msg }) if msg == "name is empty"));
    assert!(matches!(n.create_tap(None, 0), Err(TunTapError::BadArguments { ref msg }) if msg == "should be at least 1 queue"));
}

fn kernel_answer(req: &ifreq, name: &str) -> ifreq {
    let mut r = *req;
    r.set_name(name).unwrap();
    r
}

#[test]
fn linux_queues_share_the_kernel_name() {
    let n = Native::new();
    let (mut c, a) = n.create_tap(None, 2).unwrap();
    assert!(matches!(a, LinuxAction::OpenDevice));
    assert_eq!(c.flags.bits(), 0x1000 | 0x0002 | 0x0100);
    let req = match c.step(LinuxEvent::DeviceOpened(Ok(()))) {
        LinuxAction::SetInterface { request, nonblocking } => {
            assert!(!nonblocking);
            assert_eq!(request.get_name().unwrap(), "");
            assert_eq!(request.ifr_flags, 0x1102);
            request
        }
        _ => panic!("expected SetInterface"),
    };
    assert!(matches!(c.step(LinuxEvent::InterfaceSet(Ok(kernel_answer(&req, "tap0")))), LinuxAction::OpenDevice));
    match c.step(LinuxEvent::DeviceOpened(Ok(()))) {
        LinuxAction::SetInterface { request, .. } => assert_eq!(request.get_name().unwrap(), "tap0"),
        _ => panic!("expected SetInterface"),
    }
    assert!(matches!(c.step(LinuxEvent::InterfaceSet(Ok(kernel_answer(&req, "tap0")))), LinuxAction::BringUp(ref s) if s == "tap0"));
    assert!(matches!(c.step(LinuxEvent::BroughtUp(Ok(()))), LinuxAction::Finish(Ok(ref s)) if s == "tap0"));
}

#[test]
fn linux_single_queue_tun_is_not_multi_queue() {
    let n = Native::new();
    let (c, _) = n.create_tun_async(Some("tun7"), 1).unwrap();
    assert_eq!(c.flags.bits(), 0x1001);
    assert!(c.nonblocking);
    assert_eq!(c.name, "tun7");
}

#[test]
fn linux_too_long_name_is_an_io_error_after_open() {
    let n = Native::new();
    let (mut c, _) = n.create_tun(Some("a-name-much-too-long"), 1).unwrap();
    match c.step(LinuxEvent::DeviceOpened(Ok(()))) {
        LinuxAction::Finish(Err(TunTapError::Io(e))) => {
            assert_eq!(e.raw_os_error, None);
            assert_eq!(e.message, "name too long: 21 while max is 16");
        }
        other => panic!("expected an io error, got {:?}", other),
    }
}

#[test]
fn utun_name_drops_the_nul() {
    let mut buf = [0u8; 16];
    buf[..6].copy_from_slice(b"utun3\0");
    assert_eq!(utun_name(&buf, 6), "utun3");
    buf[0] = 0xff;
    assert_eq!(utun_name(&buf, 6), "\u{fffd}tun3");
}

#[test]
fn datagrams_are_written_whole() {
    assert!(datagram_written(10, 10).is_ok());
    let e = datagram_written(3, 10).unwrap_err();
    assert_eq!(e.message, "failed to write entire datagram to socket");
}

#[test]
fn packet_buffer_is_refilled_below_mtu() {
    assert_eq!(buffer_len_after_packet(MTU - 1), RESERVE_AT_ONCE);
    assert_eq!(buffer_len_after_packet(MTU), MTU);
    assert_eq!(RESERVE_AT_ONCE, 128 * 65536);
}

#[test]
fn tap_windows_codes() {
    assert_eq!(tap_control_code(TAP_GET_MAC), 0x220004);
    assert_eq!(tap_control_code(TAP_SET_MEDIA_STATUS), 0x220018);
    assert_eq!(tap_control_code(TAP_CONFIG_TUN), 0x220028);
    assert_eq!(ctl_code(0x22, 1, 0, 0), 0x220004);
}

#[test]
fn tun_configuration_bytes() {
    let c = tun_config([192, 168, 66, 12], [255, 255, 255, 0], [192, 168, 66, 1]);
    assert_eq!(c, [192, 168, 66, 12, 255, 255, 255, 0, 192, 168, 66, 1]);
}

#[test]
fn adapter_is_found_by_mac() {
    let adapters = vec![
        AdapterInfo { physical_address: None, friendly_name: "a".to_string() },
        AdapterInfo { physical_address: Some(vec![1, 2, 3, 4, 5, 6]), friendly_name: "Ethernet 2".to_string() },
        AdapterInfo { physical_address: Some(vec![1, 2, 3, 4, 5, 6]), friendly_name: "later".to_string() },
    ];
    let mac = reported_mac(&[1, 2, 3, 4, 5, 6], 6);
    assert_eq!(adapter_name(&adapters, &mac).unwrap(), "Ethernet 2");
    let short = reported_mac(&[1, 2, 3, 4, 5, 6], 4);
    assert_eq!(short, vec![1, 2, 3, 4]);
    match adapter_name(&adapters, &short) {
        Err(TunTapError::Other { msg }) => assert_eq!(msg, "failed to find created interface"),
        _ => panic!("expected Other"),
    }
    match driver_not_found("tap0901") {
        TunTapError::DriverNotFound { msg } => assert_eq!(msg, "device_id tap0901 not found"),
        _ => panic!("expected DriverNotFound"),
    }
}

#[test]
fn linux_malformed_kernel_name_is_an_io_error() {
    let n = Native::new();
    let (mut c, _) = n.create_tun(None, 1).unwrap();
    let req = match c.step(LinuxEvent::DeviceOpened(Ok(()))) {
        LinuxAction::SetInterface { request, .. } => request,
        _ => panic!("expected SetInterface"),
    };
    let mut answer = req;
    answer.ifr_name = [b'x'; 16];
    match c.step(LinuxEvent::InterfaceSet(Ok(answer))) {
        LinuxAction::Finish(Err(TunTapError::Io(e))) => {
            assert_eq!(e.raw_os_error, None);
            assert_eq!(e.message, "malformed interface name");
        }
        other => panic!("expected an io error, got {:?}", other),
    }
}

#[test]
fn packet_reader_delivers_continues_and_stops() {
    assert_eq!(
        reader_step(QueueRead::Read(100), RESERVE_AT_ONCE),
        ReaderAction::Deliver { packet_len: 100, buffer_len: RESERVE_AT_ONCE - 100 }
    );
    assert_eq!(
        reader_step(QueueRead::Read(1500), MTU),
        ReaderAction::Deliver { packet_len: 1500, buffer_len: RESERVE_AT_ONCE }
    );
    assert_eq!(reader_step(QueueRead::Read(0), MTU), ReaderAction::Continue);
    assert_eq!(reader_step(QueueRead::TimedOut, MTU), ReaderAction::Continue);
    assert_eq!(reader_step(QueueRead::Failed, MTU), ReaderAction::Stop);
}

#[test]
fn packet_reader_hands_out_the_nonempty_reads_until_a_failure() {
    let reads = [
        QueueRead::Read(1500),
        QueueRead::Read(0),
        QueueRead::TimedOut,
        QueueRead::Read(60),
        QueueRead::Failed,
        QueueRead::Read(90),
    ];
    let mut buffer_len = RESERVE_AT_ONCE;
    let mut packets = Vec::new();
    let mut stopped = false;
    for read in reads.iter() {
        if let QueueRead::Read(n) = read {
            assert!(*n <= buffer_len);
        }
        match reader_step(*read, buffer_len) {
            ReaderAction::Deliver { packet_len, buffer_len: next } => {
                packets.push(packet_len);
                buffer_len = next;
                assert!(buffer_len >= MTU);
            }
            ReaderAction::Continue => {}
            ReaderAction::Stop => {
                stopped = true;
                break;
            }
        }
    }
    assert_eq!(packets, vec![1500, 60]);
    assert!(stopped);
}
