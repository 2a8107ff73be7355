//! The TAP-Windows driver: its control codes, the configuration of a tun
//! interface, and finding the adapter that the driver created.
use crate::ifcontrol::{str_eq, IoError};
use crate::tuntap::{Native, TunTapError, TunTapErrorView};
use vstd::prelude::*;

verus! {

broadcast use vstd::string::group_string_axioms;

/// `FILE_DEVICE_UNKNOWN`, the device type of the TAP-Windows control codes.
pub const FILE_DEVICE_UNKNOWN: u32 = 0x22;

/// `TAP_WIN_IOCTL_GET_MAC`'s function number.
pub const TAP_GET_MAC: u32 = 1;

/// `TAP_WIN_IOCTL_SET_MEDIA_STATUS`'s function number.
pub const TAP_SET_MEDIA_STATUS: u32 = 6;

/// `TAP_WIN_IOCTL_CONFIG_TUN`'s function number.
pub const TAP_CONFIG_TUN: u32 = 10;

/// `MAXIMUM_REPARSE_DATA_BUFFER_SIZE`: room for the answer of a control request.
pub const MAXIMUM_REPARSE_DATA_BUFFER_SIZE: usize = 16384;

/// `CTL_CODE(device_type, function, method, access)` of `<winioctl.h>`.
pub fn ctl_code(device_type: u32, function: u32, method: u32, access: u32) -> (r: u32)
    ensures
        r == (device_type << 16u32) | (access << 14u32) | (function << 2u32) | method,
{
    (device_type << 16u32) | (access << 14u32) | (function << 2u32) | method
}

/// The control code of the TAP-Windows function `function` (buffered, any
/// access): `0x220000 + 4 * function`.
pub fn tap_control_code(function: u32) -> (r: u32)
    requires
        function < 0x1000,
    ensures
        r == 0x220000 + 4 * function,
{
    let r = ctl_code(FILE_DEVICE_UNKNOWN, function, 0, 0);
    assert((0x22u32 << 16u32) | (0u32 << 14u32) | (function << 2u32) | 0u32 == 0x220000 + 4
        * function) by (bit_vector)
        requires
            function < 0x1000u32,
    ;
    r
}

/// The argument of `TAP_WIN_IOCTL_CONFIG_TUN`: the interface's address, then
/// the netmask, then the gateway, each in network byte order.
pub fn tun_config(ip: [u8; 4], netmask: [u8; 4], gateway: [u8; 4]) -> (r: [u8; 12])
    ensures
        r@ == ip@ + netmask@ + gateway@,
{
    let mut code = [0u8; 12];
    let mut i: usize = 0;
    while i < 4
        invariant
            i <= 4,
            code@.len() == 12,
            forall|k: int| 0 <= k < i ==> code@[k] == ip@[k] && code@[4 + k] == netmask@[k]
                && code@[8 + k] == gateway@[k],
        decreases 4 - i,
    {
        code[i] = ip[i];
        code[4 + i] = netmask[i];
        code[8 + i] = gateway[i];
        i = i + 1;
    }
    assert(code@ =~= ip@ + netmask@ + gateway@);
    code
}

/// A network adapter: its hardware address where it has one, and its name.
#[derive(Debug, Clone)]
pub struct AdapterInfo {
    pub physical_address: Option<Vec<u8>>,
    pub friendly_name: String,
}

/// Whether the adapter `a` has the hardware address `mac`.
pub open spec fn has_mac(a: AdapterInfo, mac: Seq<u8>) -> bool {
    a.physical_address matches Some(p) && p@ == mac
}

fn bytes_eq(a: &[u8], b: &[u8]) -> (r: bool)
    ensures
        r == (a@ == b@),
{
    if a.len() != b.len() {
        return false;
    }
    let mut i: usize = 0;
    while i < a.len()
        invariant
            a@.len() == b@.len(),
            i <= a@.len(),
            forall|j: int| 0 <= j < i ==> a@[j] == b@[j],
        decreases a@.len() - i,
    {
        if a[i] != b[i] {
            return false;
        }
        i = i + 1;
    }
    assert(a@ =~= b@);
    true
}

/// The hardware address that the driver reported: the first `returned`
/// bytes of its answer.
pub fn reported_mac(mac: &[u8; 6], returned: u32) -> (r: Vec<u8>)
    requires
        returned <= 6,
    ensures
        r@ == mac@.take(returned as int),
{
    let mut v: Vec<u8> = Vec::new();
    let mut i: usize = 0;
    while i < returned as usize
        invariant
            returned <= 6,
            i <= returned,
            v@ =~= mac@.take(i as int),
        decreases returned - i,
    {
        v.push(mac[i]);
        i = i + 1;
    }
    v
}

/// The text of the error for an interface whose adapter is not listed.
pub open spec fn adapter_missing_text() -> Seq<char> {
    "failed to find created interface"@
}

/// Whether `k` is the first adapter of `adapters` with the hardware address `mac`.
pub open spec fn is_first_match(adapters: Seq<AdapterInfo>, mac: Seq<u8>, k: int) -> bool {
    &&& 0 <= k < adapters.len()
    &&& has_mac(adapters[k], mac)
    &&& forall|j: int| 0 <= j < k ==> !has_mac(#[trigger] adapters[j], mac)
}

/// The name of the first adapter with the hardware address `mac`, or the
/// error for an interface whose adapter is not listed.
pub open spec fn adapter_lookup(adapters: Seq<AdapterInfo>, mac: Seq<u8>) -> Result<Seq<char>, TunTapErrorView> {
    if exists|k: int| is_first_match(adapters, mac, k) {
        Ok(adapters[choose|k: int| is_first_match(adapters, mac, k)].friendly_name@)
    } else {
        Err(TunTapErrorView::Other(adapter_missing_text()))
    }
}

/// A result that names an interface, with its texts as character sequences.
pub open spec fn name_result_view(r: Result<String, TunTapError>) -> Result<Seq<char>, TunTapErrorView> {
    match r {
        Ok(n) => Ok(n@),
        Err(e) => Err(e@),
    }
}

proof fn lemma_first_match_unique(adapters: Seq<AdapterInfo>, mac: Seq<u8>, a: int, b: int)
    requires
        is_first_match(adapters, mac, a),
        is_first_match(adapters, mac, b),
    ensures
        a == b,
{
    if a < b {
        assert(!has_mac(adapters[a], mac));
    }
    if b < a {
        assert(!has_mac(adapters[b], mac));
    }
}

/// The name of the first adapter with the hardware address `mac`: the name of
/// the interface that the driver created. An error where no adapter has it.
pub fn adapter_name(adapters: &Vec<AdapterInfo>, mac: &Vec<u8>) -> (r: Result<String, TunTapError>)
    ensures
        name_result_view(r) == adapter_lookup(adapters@, mac@),
{
    let mut k: usize = 0;
    while k < adapters.len()
        invariant
            k <= adapters@.len(),
            forall|j: int| 0 <= j < k ==> !has_mac(#[trigger] adapters@[j], mac@),
        decreases adapters@.len() - k,
    {
        let found = match &adapters[k].physical_address {
            Some(p) => bytes_eq(p.as_slice(), mac.as_slice()),
            None => false,
        };
        if found {
            proof {
                assert(is_first_match(adapters@, mac@, k as int));
                let c = choose|i: int| is_first_match(adapters@, mac@, i);
                lemma_first_match_unique(adapters@, mac@, k as int, c);
            }
            return Ok(adapters[k].friendly_name.clone());
        }
        k = k + 1;
    }
    proof {
        assert forall|i: int| !is_first_match(adapters@, mac@, i) by {
            if 0 <= i < adapters@.len() {
                assert(!has_mac(adapters@[i], mac@));
            }
        }
    }
    Err(TunTapError::Other { msg: "failed to find created interface".to_owned() })
}

/// The text of the error for a failed adapter listing.
pub open spec fn adapter_list_failed_text() -> Seq<char> {
    "failed to get adapters list"@
}

/// The error for a failed adapter listing.
pub fn adapter_list_failed() -> (r: TunTapError)
    ensures
        r@ == TunTapErrorView::Other(adapter_list_failed_text()),
{
    TunTapError::Other { msg: "failed to get adapters list".to_owned() }
}

/// The error for a driver component that no network adapter class entry has:
/// "device_id <id> not found".
pub fn driver_not_found(device_id: &str) -> (r: TunTapError)
    ensures
        r@ == TunTapErrorView::DriverNotFound("device_id "@ + device_id@ + " not found"@),
{
    let mut msg = "device_id ".to_owned();
    msg.append(device_id);
    msg.append(" not found");
    TunTapError::DriverNotFound { msg }
}

/// The device file of the TAP-Windows adapter whose instance id is `id`.
pub open spec fn tap_device_path(id: Seq<char>) -> Seq<char> {
    "\\\\.\\Global\\\\"@ + id + ".tap"@
}

/// The device file of the TAP-Windows adapter whose instance id is `id`.
pub fn make_tap_device_path(id: &str) -> (r: String)
    ensures
        r@ == tap_device_path(id@),
{
    let mut p = "\\\\.\\Global\\\\".to_owned();
    p.append(id);
    p.append(".tap");
    p
}

/// What came of the last action of opening a TAP-Windows device.
#[derive(Debug)]
pub enum WinEvent {
    /// The next subkey of the network adapter class key: its name, or `None`
    /// past the last one.
    KeyListed(Result<Option<String>, IoError>),
    /// The `ComponentId` value of the subkey asked for.
    ComponentRead(Result<String, IoError>),
    /// The `NetCfgInstanceId` value of the subkey asked for.
    InstanceRead(Result<String, IoError>),
    /// The outcome of opening the device file.
    FileOpened(Result<(), IoError>),
    /// The answer of `TAP_WIN_IOCTL_GET_MAC`: the buffer, and how many of its
    /// bytes the driver wrote.
    MacRead(Result<([u8; 6], u32), IoError>),
    /// The outcome of `TAP_WIN_IOCTL_SET_MEDIA_STATUS`.
    MediaSet(Result<(), IoError>),
    /// The outcome of `TAP_WIN_IOCTL_CONFIG_TUN`.
    TunConfigured(Result<(), IoError>),
    /// The network adapters of the system, or `None` where listing them failed.
    AdaptersListed(Option<Vec<AdapterInfo>>),
}

/// What to do next to open a TAP-Windows device.
#[derive(Debug)]
pub enum WinAction {
    /// Give the next subkey of the network adapter class key
    /// (`SYSTEM\CurrentControlSet\Control\Class\{4D36E972-E325-11CE-BFC1-08002BE10318}`).
    NextKey,
    /// Read the `ComponentId` value of this subkey.
    ReadComponentId(String),
    /// Read the `NetCfgInstanceId` value of this subkey.
    ReadInstanceId(String),
    /// Open this device file for reading and writing, shared, as a system file.
    OpenFile(String),
    /// Issue the control request `code` on the device file with this input,
    /// and room for `output_len` bytes of answer.
    Control { code: u32, input: Vec<u8>, output_len: usize },
    /// List the network adapters of the system.
    ListAdapters,
    /// The opening ended: on success the device file belongs to the interface
    /// of this name; on failure it is to be closed.
    Finish(Result<String, TunTapError>),
}

/// A `WinAction` with its texts and buffers as sequences.
pub enum WinActionView {
    NextKey,
    ReadComponentId(Seq<char>),
    ReadInstanceId(Seq<char>),
    OpenFile(Seq<char>),
    Control(u32, Seq<u8>, usize),
    ListAdapters,
    Finish(Result<Seq<char>, TunTapErrorView>),
}

impl View for WinAction {
    type V = WinActionView;

    open spec fn view(&self) -> WinActionView {
        match self {
            WinAction::NextKey => WinActionView::NextKey,
            WinAction::ReadComponentId(k) => WinActionView::ReadComponentId(k@),
            WinAction::ReadInstanceId(k) => WinActionView::ReadInstanceId(k@),
            WinAction::OpenFile(p) => WinActionView::OpenFile(p@),
            WinAction::Control { code, input, output_len } => WinActionView::Control(
                *code,
                input@,
                *output_len,
            ),
            WinAction::ListAdapters => WinActionView::ListAdapters,
            WinAction::Finish(r) => WinActionView::Finish(name_result_view(*r)),
        }
    }
}

/// Where the opening of a TAP-Windows device stands.
#[derive(Debug, Clone, Copy, PartialEq, Eq, Structural)]
pub enum WinStage {
    NextKey,
    ComponentId,
    InstanceId,
    OpenFile,
    GetMac,
    MediaStatus,
    ConfigTun,
    ListAdapters,
    Finished,
}

/// The opening of the TAP-Windows device of the driver component
/// `device_id`: find the adapter class entry of the component, open its
/// device file, read its hardware address, set its media status to connected,
/// configure it as a tun interface where `tun_config` is given, and find the
/// adapter with that hardware address, whose name is the interface's name.
#[derive(Debug)]
pub struct WindowsOpen {
    pub device_id: String,
    pub tun_config: Option<[u8; 12]>,
    /// The subkey being examined.
    pub key: String,
    /// The hardware address that the driver reported.
    pub mac: Vec<u8>,
    pub stage: WinStage,
}

/// A `WindowsOpen` with its texts and buffers as sequences.
pub struct WindowsOpenView {
    pub device_id: Seq<char>,
    pub tun_config: Option<Seq<u8>>,
    pub key: Seq<char>,
    pub mac: Seq<u8>,
    pub stage: WinStage,
}

impl View for WindowsOpen {
    type V = WindowsOpenView;

    open spec fn view(&self) -> WindowsOpenView {
        WindowsOpenView {
            device_id: self.device_id@,
            tun_config: match self.tun_config {
                Some(c) => Some(c@),
                None => None,
            },
            key: self.key@,
            mac: self.mac@,
            stage: self.stage,
        }
    }
}

/// Whether `e` answers the action that the stage `st` waits for. A driver
/// writes no more hardware address bytes than the buffer holds.
pub open spec fn win_event_fits(st: WinStage, e: WinEvent) -> bool {
    match st {
        WinStage::NextKey => e is KeyListed,
        WinStage::ComponentId => e is ComponentRead,
        WinStage::InstanceId => e is InstanceRead,
        WinStage::OpenFile => e is FileOpened,
        WinStage::GetMac => e matches WinEvent::MacRead(m) && (m matches Ok(a) ==> a.1 <= 6),
        WinStage::MediaStatus => e is MediaSet,
        WinStage::ConfigTun => e is TunConfigured,
        WinStage::ListAdapters => e is AdaptersListed,
        WinStage::Finished => false,
    }
}

/// The control request that asks for the hardware address.
pub open spec fn get_mac_request() -> WinActionView {
    WinActionView::Control(0x220004u32, seq![0u8, 0u8, 0u8, 0u8, 0u8, 0u8], 6)
}

/// The control request that sets the media status to connected.
pub open spec fn media_up_request() -> WinActionView {
    WinActionView::Control(
        0x220018u32,
        seq![1u8, 0u8, 0u8, 0u8],
        MAXIMUM_REPARSE_DATA_BUFFER_SIZE,
    )
}

/// The control request that configures a tun interface with `config`.
pub open spec fn config_tun_request(config: Seq<u8>) -> WinActionView {
    WinActionView::Control(0x220028u32, config, MAXIMUM_REPARSE_DATA_BUFFER_SIZE)
}

/// The error of a failed system call.
pub open spec fn io_failure(e: IoError) -> WinActionView {
    WinActionView::Finish(Err(TunTapErrorView::Io(e@)))
}

/// The next state and action of a TAP-Windows device opening after the event `e`.
pub open spec fn win_step(s: WindowsOpenView, e: WinEvent) -> (WindowsOpenView, WinActionView) {
    let fin = WindowsOpenView { stage: WinStage::Finished, ..s };
    match e {
        WinEvent::KeyListed(Err(err)) => (fin, io_failure(err)),
        WinEvent::KeyListed(Ok(None)) => (
            fin,
            WinActionView::Finish(
                Err(TunTapErrorView::DriverNotFound("device_id "@ + s.device_id + " not found"@)),
            ),
        ),
        WinEvent::KeyListed(Ok(Some(k))) => (
            WindowsOpenView { key: k@, stage: WinStage::ComponentId, ..s },
            WinActionView::ReadComponentId(k@),
        ),
        WinEvent::ComponentRead(Err(err)) => (fin, io_failure(err)),
        WinEvent::ComponentRead(Ok(c)) => if c@ == s.device_id {
            (
                WindowsOpenView { stage: WinStage::InstanceId, ..s },
                WinActionView::ReadInstanceId(s.key),
            )
        } else {
            (WindowsOpenView { stage: WinStage::NextKey, ..s }, WinActionView::NextKey)
        },
        WinEvent::InstanceRead(Err(err)) => (fin, io_failure(err)),
        WinEvent::InstanceRead(Ok(id)) => (
            WindowsOpenView { stage: WinStage::OpenFile, ..s },
            WinActionView::OpenFile(tap_device_path(id@)),
        ),
        WinEvent::FileOpened(Err(err)) => (fin, io_failure(err)),
        WinEvent::FileOpened(Ok(())) => (
            WindowsOpenView { stage: WinStage::GetMac, ..s },
            get_mac_request(),
        ),
        WinEvent::MacRead(Err(err)) => (fin, io_failure(err)),
        WinEvent::MacRead(Ok((mac, n))) => (
            WindowsOpenView { mac: mac@.take(n as int), stage: WinStage::MediaStatus, ..s },
            media_up_request(),
        ),
        WinEvent::MediaSet(Err(err)) => (fin, io_failure(err)),
        WinEvent::MediaSet(Ok(())) => match s.tun_config {
            Some(c) => (
                WindowsOpenView { stage: WinStage::ConfigTun, ..s },
                config_tun_request(c),
            ),
            None => (
                WindowsOpenView { stage: WinStage::ListAdapters, ..s },
                WinActionView::ListAdapters,
            ),
        },
        WinEvent::TunConfigured(Err(err)) => (fin, io_failure(err)),
        WinEvent::TunConfigured(Ok(())) => (
            WindowsOpenView { stage: WinStage::ListAdapters, ..s },
            WinActionView::ListAdapters,
        ),
        WinEvent::AdaptersListed(None) => (
            fin,
            WinActionView::Finish(Err(TunTapErrorView::Other(adapter_list_failed_text()))),
        ),
        WinEvent::AdaptersListed(Some(list)) => (
            fin,
            WinActionView::Finish(adapter_lookup(list@, s.mac)),
        ),
    }
}

/// The start of opening the TAP-Windows device of the driver component
/// `device_id`: look for its adapter class entry.
pub open spec fn win_start(device_id: Seq<char>, tun_config: Option<Seq<u8>>) -> WindowsOpenView {
    WindowsOpenView {
        device_id,
        tun_config,
        key: Seq::empty(),
        mac: Seq::empty(),
        stage: WinStage::NextKey,
    }
}

impl WindowsOpen {
    /// Takes what came of the last action; returns the next action.
    pub fn step(&mut self, e: WinEvent) -> (r: WinAction)
        requires
            win_event_fits(old(self).stage, e),
        ensures
            final(self)@ == win_step(old(self)@, e).0,
            r@ == win_step(old(self)@, e).1,
    {
        match e {
            WinEvent::KeyListed(Err(err)) => {
                self.stage = WinStage::Finished;
                WinAction::Finish(Err(TunTapError::Io(err)))
            },
            WinEvent::KeyListed(Ok(None)) => {
                self.stage = WinStage::Finished;
                WinAction::Finish(Err(driver_not_found(self.device_id.as_str())))
            },
            WinEvent::KeyListed(Ok(Some(k))) => {
                let asked = k.clone();
                self.key = k;
                self.stage = WinStage::ComponentId;
                WinAction::ReadComponentId(asked)
            },
            WinEvent::ComponentRead(Err(err)) => {
                self.stage = WinStage::Finished;
                WinAction::Finish(Err(TunTapError::Io(err)))
            },
            WinEvent::ComponentRead(Ok(c)) => {
                if str_eq(c.as_str(), self.device_id.as_str()) {
                    self.stage = WinStage::InstanceId;
                    WinAction::ReadInstanceId(self.key.clone())
                } else {
                    self.stage = WinStage::NextKey;
                    WinAction::NextKey
                }
            },
            WinEvent::InstanceRead(Err(err)) => {
                self.stage = WinStage::Finished;
                WinAction::Finish(Err(TunTapError::Io(err)))
            },
            WinEvent::InstanceRead(Ok(id)) => {
                self.stage = WinStage::OpenFile;
                WinAction::OpenFile(make_tap_device_path(id.as_str()))
            },
            WinEvent::FileOpened(Err(err)) => {
                self.stage = WinStage::Finished;
                WinAction::Finish(Err(TunTapError::Io(err)))
            },
            WinEvent::FileOpened(Ok(())) => {
                self.stage = WinStage::GetMac;
                let input: Vec<u8> = vec![0u8, 0u8, 0u8, 0u8, 0u8, 0u8];
                assert(input@ =~= seq![0u8, 0u8, 0u8, 0u8, 0u8, 0u8]);
                WinAction::Control { code: tap_control_code(TAP_GET_MAC), input, output_len: 6 }
            },
            WinEvent::MacRead(Err(err)) => {
                self.stage = WinStage::Finished;
                WinAction::Finish(Err(TunTapError::Io(err)))
            },
            WinEvent::MacRead(Ok((mac, n))) => {
                self.mac = reported_mac(&mac, n);
                self.stage = WinStage::MediaStatus;
                let input: Vec<u8> = vec![1u8, 0u8, 0u8, 0u8];
                assert(input@ =~= seq![1u8, 0u8, 0u8, 0u8]);
                WinAction::Control {
                    code: tap_control_code(TAP_SET_MEDIA_STATUS),
                    input,
                    output_len: MAXIMUM_REPARSE_DATA_BUFFER_SIZE,
                }
            },
            WinEvent::MediaSet(Err(err)) => {
                self.stage = WinStage::Finished;
                WinAction::Finish(Err(TunTapError::Io(err)))
            },
            WinEvent::MediaSet(Ok(())) => {
                match self.tun_config {
                    Some(c) => {
                        self.stage = WinStage::ConfigTun;
                        let mut input: Vec<u8> = Vec::new();
                        let mut i: usize = 0;
                        while i < 12
                            invariant
                                i <= 12,
                                input@ =~= c@.take(i as int),
                            decreases 12 - i,
                        {
                            input.push(c[i]);
                            i = i + 1;
                        }
                        assert(input@ =~= c@);
                        WinAction::Control {
                            code: tap_control_code(TAP_CONFIG_TUN),
                            input,
                            output_len: MAXIMUM_REPARSE_DATA_BUFFER_SIZE,
                        }
                    },
                    None => {
                        self.stage = WinStage::ListAdapters;
                        WinAction::ListAdapters
                    },
                }
            },
            WinEvent::TunConfigured(Err(err)) => {
                self.stage = WinStage::Finished;
                WinAction::Finish(Err(TunTapError::Io(err)))
            },
            WinEvent::TunConfigured(Ok(())) => {
                self.stage = WinStage::ListAdapters;
                WinAction::ListAdapters
            },
            WinEvent::AdaptersListed(None) => {
                self.stage = WinStage::Finished;
                WinAction::Finish(Err(adapter_list_failed()))
            },
            WinEvent::AdaptersListed(Some(list)) => {
                self.stage = WinStage::Finished;
                WinAction::Finish(adapter_name(&list, &self.mac))
            },
        }
    }
}

impl Native {
    /// Starts opening the TAP-Windows device of the driver component
    /// `device_id` as a tun interface with the address `ip`, the netmask
    /// `netmask` and the gateway `gateway`.
    pub fn open_tun(&self, device_id: &str, ip: [u8; 4], netmask: [u8; 4], gateway: [u8; 4]) -> (r: (
        WindowsOpen,
        WinAction,
    ))
        ensures
            r.0@ == win_start(device_id@, Some(ip@ + netmask@ + gateway@)),
            r.1@ == WinActionView::NextKey,
    {
        let config = tun_config(ip, netmask, gateway);
        (
            WindowsOpen {
                device_id: device_id.to_owned(),
                tun_config: Some(config),
                key: String::new(),
                mac: Vec::new(),
                stage: WinStage::NextKey,
            },
            WinAction::NextKey,
        )
    }

    /// Starts opening the TAP-Windows device of the driver component
    /// `device_id` as a tap interface.
    pub fn open_tap(&self, device_id: &str) -> (r: (WindowsOpen, WinAction))
        ensures
            r.0@ == win_start(device_id@, None),
            r.1@ == WinActionView::NextKey,
    {
        (
            WindowsOpen {
                device_id: device_id.to_owned(),
                tun_config: None,
                key: String::new(),
                mac: Vec::new(),
                stage: WinStage::NextKey,
            },
            WinAction::NextKey,
        )
    }
}

/// What the system answers to the actions of opening a TAP-Windows device.
pub struct WinSystem {
    /// The subkeys of the network adapter class key, in the order they are
    /// listed (an error where listing one fails); the listing ends after them.
    pub keys: Seq<Result<String, IoError>>,
    /// The `ComponentId` value of each subkey.
    pub component: spec_fn(Seq<char>) -> Result<String, IoError>,
    /// The `NetCfgInstanceId` value of each subkey.
    pub instance: spec_fn(Seq<char>) -> Result<String, IoError>,
    /// What opening each device file gives.
    pub open: spec_fn(Seq<char>) -> Result<(), IoError>,
    /// The answer to `TAP_WIN_IOCTL_GET_MAC`.
    pub mac: Result<([u8; 6], u32), IoError>,
    /// The answer to `TAP_WIN_IOCTL_SET_MEDIA_STATUS`.
    pub media: Result<(), IoError>,
    /// The answer to `TAP_WIN_IOCTL_CONFIG_TUN`.
    pub config: Result<(), IoError>,
    /// The network adapters, or `None` where listing them fails.
    pub adapters: Option<Vec<AdapterInfo>>,
}

/// The answer that the system `w` gives to the action `a` of the opening in
/// the state `s`, where `listed` subkeys were listed before.
pub open spec fn win_event_for(s: WindowsOpenView, a: WinActionView, w: WinSystem, listed: nat) -> WinEvent {
    match s.stage {
        WinStage::NextKey => WinEvent::KeyListed(
            if listed < w.keys.len() {
                match w.keys[listed as int] {
                    Ok(k) => Ok(Some(k)),
                    Err(e) => Err(e),
                }
            } else {
                Ok(None)
            },
        ),
        WinStage::ComponentId => WinEvent::ComponentRead((w.component)(s.key)),
        WinStage::InstanceId => WinEvent::InstanceRead((w.instance)(s.key)),
        WinStage::OpenFile => WinEvent::FileOpened(
            match a {
                WinActionView::OpenFile(p) => (w.open)(p),
                _ => (w.open)(Seq::empty()),
            },
        ),
        WinStage::GetMac => WinEvent::MacRead(w.mac),
        WinStage::MediaStatus => WinEvent::MediaSet(w.media),
        WinStage::ConfigTun => WinEvent::TunConfigured(w.config),
        _ => WinEvent::AdaptersListed(w.adapters),
    }
}

/// The outcome of an opening in the state `s` with the pending action `a`,
/// when the system `w` answers each action, within `fuel` steps.
pub open spec fn run_win_open(s: WindowsOpenView, a: WinActionView, w: WinSystem, listed: nat, fuel: nat) -> Option<
    Result<Seq<char>, TunTapErrorView>,
>
    decreases fuel,
{
    match a {
        WinActionView::Finish(r) => Some(r),
        _ => if fuel == 0 {
            None
        } else {
            let next = win_step(s, win_event_for(s, a, w, listed));
            let listed2: nat = if s.stage == WinStage::NextKey {
                listed + 1
            } else {
                listed
            };
            run_win_open(next.0, next.1, w, listed2, (fuel - 1) as nat)
        },
    }
}

/// The instance id of the first adapter class entry, from the `from`th subkey
/// on, whose component is `device_id`; `None` where no entry is.
pub open spec fn find_instance(device_id: Seq<char>, w: WinSystem, from: nat) -> Result<Option<Seq<char>>, TunTapErrorView>
    decreases w.keys.len() - from,
{
    if from >= w.keys.len() {
        Ok(None)
    } else {
        match w.keys[from as int] {
            Err(e) => Err(TunTapErrorView::Io(e@)),
            Ok(k) => match (w.component)(k@) {
                Err(e) => Err(TunTapErrorView::Io(e@)),
                Ok(c) => if c@ == device_id {
                    match (w.instance)(k@) {
                        Err(e) => Err(TunTapErrorView::Io(e@)),
                        Ok(id) => Ok(Some(id@)),
                    }
                } else {
                    find_instance(device_id, w, from + 1)
                },
            },
        }
    }
}

/// Opening the device of the adapter with the instance id `id`, where the
/// system is `w`, configured as a tun interface where `tun_config` is given.
pub open spec fn open_found(id: Seq<char>, tun_config: Option<Seq<u8>>, w: WinSystem) -> Result<Seq<char>, TunTapErrorView> {
    match (w.open)(tap_device_path(id)) {
        Err(e) => Err(TunTapErrorView::Io(e@)),
        Ok(()) => match w.mac {
            Err(e) => Err(TunTapErrorView::Io(e@)),
            Ok((mac, n)) => match w.media {
                Err(e) => Err(TunTapErrorView::Io(e@)),
                Ok(()) => match (if tun_config is Some { w.config } else { Ok(()) }) {
                    Err(e) => Err(TunTapErrorView::Io(e@)),
                    Ok(()) => match w.adapters {
                        None => Err(TunTapErrorView::Other(adapter_list_failed_text())),
                        Some(list) => adapter_lookup(list@, mac@.take(n as int)),
                    },
                },
            },
        },
    }
}

/// The result of a lookup from `from` on, then of opening what it found.
pub open spec fn after_lookup(device_id: Seq<char>, tun_config: Option<Seq<u8>>, w: WinSystem, from: nat) -> Result<Seq<char>, TunTapErrorView> {
    match find_instance(device_id, w, from) {
        Err(e) => Err(e),
        Ok(None) => Err(TunTapErrorView::DriverNotFound("device_id "@ + device_id + " not found"@)),
        Ok(Some(id)) => open_found(id, tun_config, w),
    }
}

/// Opening the TAP-Windows device of the driver component `device_id` where
/// the system is `w`: the device of the first adapter class entry of the
/// component, named as the adapter that has its hardware address.
pub open spec fn open_dev_result(device_id: Seq<char>, tun_config: Option<Seq<u8>>, w: WinSystem) -> Result<Seq<char>, TunTapErrorView> {
    after_lookup(device_id, tun_config, w, 0)
}

proof fn lemma_open_found(s: WindowsOpenView, id: Seq<char>, w: WinSystem, listed: nat, fuel: nat)
    requires
        s.stage == WinStage::OpenFile,
        fuel >= 5,
    ensures
        run_win_open(s, WinActionView::OpenFile(tap_device_path(id)), w, listed, fuel) == Some(
            open_found(id, s.tun_config, w),
        ),
{
    let a0 = WinActionView::OpenFile(tap_device_path(id));
    let n1 = win_step(s, win_event_for(s, a0, w, listed));
    assert(run_win_open(s, a0, w, listed, fuel) == run_win_open(n1.0, n1.1, w, listed, (fuel - 1) as nat));
    if (w.open)(tap_device_path(id)) is Ok {
        let n2 = win_step(n1.0, win_event_for(n1.0, n1.1, w, listed));
        assert(run_win_open(n1.0, n1.1, w, listed, (fuel - 1) as nat) == run_win_open(
            n2.0,
            n2.1,
            w,
            listed,
            (fuel - 2) as nat,
        ));
        if w.mac is Ok {
            let n3 = win_step(n2.0, win_event_for(n2.0, n2.1, w, listed));
            assert(run_win_open(n2.0, n2.1, w, listed, (fuel - 2) as nat) == run_win_open(
                n3.0,
                n3.1,
                w,
                listed,
                (fuel - 3) as nat,
            ));
            if w.media is Ok {
                let n4 = win_step(n3.0, win_event_for(n3.0, n3.1, w, listed));
                assert(run_win_open(n3.0, n3.1, w, listed, (fuel - 3) as nat) == run_win_open(
                    n4.0,
                    n4.1,
                    w,
                    listed,
                    (fuel - 4) as nat,
                ));
                if s.tun_config is Some {
                    if w.config is Ok {
                        let n5 = win_step(n4.0, win_event_for(n4.0, n4.1, w, listed));
                        assert(run_win_open(n4.0, n4.1, w, listed, (fuel - 4) as nat) == run_win_open(
                            n5.0,
                            n5.1,
                            w,
                            listed,
                            (fuel - 5) as nat,
                        ));
                    }
                }
            }
        }
    }
}

proof fn lemma_lookup(s: WindowsOpenView, w: WinSystem, listed: nat, fuel: nat)
    requires
        s.stage == WinStage::NextKey,
        listed <= w.keys.len(),
        fuel >= 2 * (w.keys.len() - listed) + 8,
    ensures
        run_win_open(s, WinActionView::NextKey, w, listed, fuel) == Some(
            after_lookup(s.device_id, s.tun_config, w, listed),
        ),
    decreases w.keys.len() - listed,
{
    let a0 = WinActionView::NextKey;
    let n1 = win_step(s, win_event_for(s, a0, w, listed));
    assert(run_win_open(s, a0, w, listed, fuel) == run_win_open(n1.0, n1.1, w, listed + 1, (fuel - 1) as nat));
    if listed < w.keys.len() {
        if let Ok(k) = w.keys[listed as int] {
            let n2 = win_step(n1.0, win_event_for(n1.0, n1.1, w, listed + 1));
            assert(run_win_open(n1.0, n1.1, w, listed + 1, (fuel - 1) as nat) == run_win_open(
                n2.0,
                n2.1,
                w,
                listed + 1,
                (fuel - 2) as nat,
            ));
            if let Ok(c) = (w.component)(k@) {
                if c@ == s.device_id {
                    let n3 = win_step(n2.0, win_event_for(n2.0, n2.1, w, listed + 1));
                    assert(run_win_open(n2.0, n2.1, w, listed + 1, (fuel - 2) as nat) == run_win_open(
                        n3.0,
                        n3.1,
                        w,
                        listed + 1,
                        (fuel - 3) as nat,
                    ));
                    if let Ok(id) = (w.instance)(k@) {
                        lemma_open_found(n3.0, id@, w, listed + 1, (fuel - 3) as nat);
                    }
                } else {
                    lemma_lookup(n2.0, w, listed + 1, (fuel - 2) as nat);
                }
            }
        }
    }
}

/// Running the opening of a TAP-Windows device, with the system answering
/// each action as `w` does, ends as opening it directly does: with the
/// device of the first adapter class entry of the component, named as the
/// adapter that has the hardware address its driver reports.
pub proof fn lemma_win_open_matches(device_id: Seq<char>, tun_config: Option<Seq<u8>>, w: WinSystem)
    ensures
        run_win_open(
            win_start(device_id, tun_config),
            WinActionView::NextKey,
            w,
            0,
            (2 * w.keys.len() + 8) as nat,
        ) == Some(open_dev_result(device_id, tun_config, w)),
{
    lemma_lookup(win_start(device_id, tun_config), w, 0, (2 * w.keys.len() + 8) as nat);
}

/// Once the hardware address is read, the device's media status is set to
/// connected (`TAP_WIN_IOCTL_SET_MEDIA_STATUS`, 0x220018, with the status
/// word 1), whether it is opened as a tun or as a tap interface, and the
/// address kept is the part of the buffer that the driver wrote.
pub proof fn lemma_media_set_connected(s: WindowsOpenView, mac: [u8; 6], n: u32)
    ensures
        win_step(s, WinEvent::MacRead(Ok((mac, n)))).1 == WinActionView::Control(
            0x220018u32,
            seq![1u8, 0u8, 0u8, 0u8],
            16384usize,
        ),
        win_step(s, WinEvent::MacRead(Ok((mac, n)))).0.mac == mac@.take(n as int),
        win_step(s, WinEvent::MacRead(Ok((mac, n)))).0.tun_config == s.tun_config,
{
}

} // verus!
