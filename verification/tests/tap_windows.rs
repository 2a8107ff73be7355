use netif::ifcontrol::IoError;
use netif::tap_windows::{
    make_tap_device_path, AdapterInfo, WinAction, WinEvent, WindowsOpen,
    MAXIMUM_REPARSE_DATA_BUFFER_SIZE,
};
use netif::tuntap::{Native, TunTapError};

fn failure(code: i32) -> IoError {
    IoError { raw_os_error: Some(code), message: String::from("denied") }
}

fn adapters() -> Vec<AdapterInfo> {
    vec![
        AdapterInfo { physical_address: None, friendly_name: String::from("Loopback") },
        AdapterInfo {
            physical_address: Some(vec![0, 0xff, 1, 2, 3, 4]),
            friendly_name: String::from("Ethernet 3"),
        },
        AdapterInfo {
            physical_address: Some(vec![0, 0xff, 1, 2, 3, 4]),
            friendly_name: String::from("Ethernet 4"),
        },
    ]
}

fn control(action: WinAction) -> (u32, Vec<u8>, usize) {
    match action {
        WinAction::Control { code, input, output_len } => (code, input, output_len),
        other => panic!("expected a control request, got {:?}", other),
    }
}

/// Walks the lookup of the adapter class entries: `other` first, then the
/// driver's own entry with the instance id `id`.
fn find_entry(open: &mut WindowsOpen, id: &str) -> WinAction {
    let a = open.step(WinEvent::KeyListed(Ok(Some(String::from("0000")))));
    assert!(matches!(a, WinAction::ReadComponentId(ref k) if k == "0000"));
    let a = open.step(WinEvent::ComponentRead(Ok(String::from("other"))));
    assert!(matches!(a, WinAction::NextKey));
    let a = open.step(WinEvent::KeyListed(Ok(Some(String::from("0001")))));
    assert!(matches!(a, WinAction::ReadComponentId(ref k) if k == "0001"));
    let a = open.step(WinEvent::ComponentRead(Ok(String::from("tap0901"))));
    assert!(matches!(a, WinAction::ReadInstanceId(ref k) if k == "0001"));
    open.step(WinEvent::InstanceRead(Ok(String::from(id))))
}

#[test]
fn device_path_of_an_instance() {
    assert_eq!(make_tap_device_path("{ABC}"), "\\\\.\\Global\\\\{ABC}.tap");
}

#[test]
fn tap_is_opened_step_by_step() {
    let native = Native::new();
    let (mut open, first) = native.open_tap("tap0901");
    assert!(matches!(first, WinAction::NextKey));
    let a = find_entry(&mut open, "{ABC}");
    match a {
        WinAction::OpenFile(p) => assert_eq!(p, "\\\\.\\Global\\\\{ABC}.tap"),
        other => panic!("expected the device file, got {:?}", other),
    }
    let (code, input, len) = control(open.step(WinEvent::FileOpened(Ok(()))));
    assert_eq!((code, input, len), (0x220004, vec![0; 6], 6));
    let (code, input, len) =
        control(open.step(WinEvent::MacRead(Ok(([0, 0xff, 1, 2, 3, 4], 6)))));
    assert_eq!((code, input, len), (0x220018, vec![1, 0, 0, 0], MAXIMUM_REPARSE_DATA_BUFFER_SIZE));
    let a = open.step(WinEvent::MediaSet(Ok(())));
    assert!(matches!(a, WinAction::ListAdapters));
    match open.step(WinEvent::AdaptersListed(Some(adapters()))) {
        WinAction::Finish(Ok(name)) => assert_eq!(name, "Ethernet 3"),
        other => panic!("expected the adapter's name, got {:?}", other),
    }
}

#[test]
fn tun_is_configured_before_adapters_are_listed() {
    let native = Native::new();
    let (mut open, _) = native.open_tun("tap0901", [10, 0, 0, 2], [255, 255, 255, 0], [10, 0, 0, 1]);
    find_entry(&mut open, "{ABC}");
    control(open.step(WinEvent::FileOpened(Ok(()))));
    control(open.step(WinEvent::MacRead(Ok(([0, 0xff, 1, 2, 3, 4], 6)))));
    let (code, input, len) = control(open.step(WinEvent::MediaSet(Ok(()))));
    assert_eq!(code, 0x220028);
    assert_eq!(input, vec![10, 0, 0, 2, 255, 255, 255, 0, 10, 0, 0, 1]);
    assert_eq!(len, MAXIMUM_REPARSE_DATA_BUFFER_SIZE);
    assert!(matches!(open.step(WinEvent::TunConfigured(Ok(()))), WinAction::ListAdapters));
    assert!(matches!(
        open.step(WinEvent::AdaptersListed(Some(adapters()))),
        WinAction::Finish(Ok(_))
    ));
}

#[test]
fn unknown_component_is_driver_not_found() {
    let (mut open, _) = Native::new().open_tap("tap0901");
    open.step(WinEvent::KeyListed(Ok(Some(String::from("0000")))));
    open.step(WinEvent::ComponentRead(Ok(String::from("other"))));
    match open.step(WinEvent::KeyListed(Ok(None))) {
        WinAction::Finish(Err(TunTapError::DriverNotFound { msg })) => {
            assert_eq!(msg, "device_id tap0901 not found")
        }
        other => panic!("expected driver not found, got {:?}", other),
    }
}

#[test]
fn registry_failure_is_an_io_error() {
    let (mut open, _) = Native::new().open_tap("tap0901");
    open.step(WinEvent::KeyListed(Ok(Some(String::from("0000")))));
    match open.step(WinEvent::ComponentRead(Err(failure(2)))) {
        WinAction::Finish(Err(TunTapError::Io(e))) => assert_eq!(e.raw_os_error, Some(2)),
        other => panic!("expected an io error, got {:?}", other),
    }
}

#[test]
fn failed_control_request_ends_the_opening() {
    let (mut open, _) = Native::new().open_tap("tap0901");
    find_entry(&mut open, "{ABC}");
    control(open.step(WinEvent::FileOpened(Ok(()))));
    match open.step(WinEvent::MacRead(Err(failure(31)))) {
        WinAction::Finish(Err(TunTapError::Io(e))) => assert_eq!(e.raw_os_error, Some(31)),
        other => panic!("expected an io error, got {:?}", other),
    }
}

#[test]
fn short_hardware_address_matches_no_adapter() {
    let (mut open, _) = Native::new().open_tap("tap0901");
    find_entry(&mut open, "{ABC}");
    control(open.step(WinEvent::FileOpened(Ok(()))));
    control(open.step(WinEvent::MacRead(Ok(([0, 0xff, 1, 2, 3, 4], 4)))));
    open.step(WinEvent::MediaSet(Ok(())));
    match open.step(WinEvent::AdaptersListed(Some(adapters()))) {
        WinAction::Finish(Err(TunTapError::Other { msg })) => {
            assert_eq!(msg, "failed to find created interface")
        }
        other => panic!("expected a missing adapter, got {:?}", other),
    }
}

#[test]
fn failed_adapter_listing_is_reported() {
    let (mut open, _) = Native::new().open_tap("tap0901");
    find_entry(&mut open, "{ABC}");
    control(open.step(WinEvent::FileOpened(Ok(()))));
    control(open.step(WinEvent::MacRead(Ok(([0, 0xff, 1, 2, 3, 4], 6)))));
    open.step(WinEvent::MediaSet(Ok(())));
    match open.step(WinEvent::AdaptersListed(None)) {
        WinAction::Finish(Err(TunTapError::Other { msg })) => {
            assert_eq!(msg, "failed to get adapters list")
        }
        other => panic!("expected a failed listing, got {:?}", other),
    }
}
