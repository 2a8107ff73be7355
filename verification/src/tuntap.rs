//! Virtual tun/tap interfaces: their errors and descriptions, and the
//! decisions of creating one. Creating an interface alternates system calls
//! and decisions; the decisions stand here as state machines, and the caller
//! performs each action and hands back what came of it.
use crate::flags::TunTapFlags;
use crate::ifcontrol::{name_io_error, name_io_failure, IfError, IoError, NixError};
use crate::ifname::{decimal, decimal_string, name_text, stored_name, IfNameError, IFNAMSIZ};
use crate::ifstructs::{ifreq, zeros, SOCKADDR_SIZE};
use vstd::utf8::{decode_utf8, encode_utf8, valid_utf8};
use vstd::prelude::*;

verus! {

broadcast use vstd::string::group_string_axioms;

/// `EBUSY`, "device or resource busy".
pub const EBUSY: i32 = 16;

/// Largest packet read at once.
pub const MTU: usize = 65536;

/// Size of the buffer that packets are read into, reserved at once.
pub const RESERVE_AT_ONCE: usize = 128 * MTU;

/// Error of the tun/tap backends.
#[derive(Debug, Clone)]
pub enum TunTapError {
    Nix(NixError),
    Io(IoError),
    IfControl(IfError),
    NotFound { msg: String },
    MaxNumberReached { max: usize },
    NameTooLong { s: usize, max: usize },
    BadArguments { msg: String },
    NotSupported { msg: String },
    DriverNotFound { msg: String },
    BadData { msg: String },
    Busy,
    Other { msg: String },
}

/// A `TunTapError` with its texts as character sequences.
pub enum TunTapErrorView {
    Nix(NixError),
    /// The OS error code and the text.
    Io((Option<i32>, Seq<char>)),
    IfControl(IfError),
    NotFound(Seq<char>),
    MaxNumberReached(usize),
    NameTooLong(usize, usize),
    BadArguments(Seq<char>),
    NotSupported(Seq<char>),
    DriverNotFound(Seq<char>),
    BadData(Seq<char>),
    Busy,
    Other(Seq<char>),
}

impl View for TunTapError {
    type V = TunTapErrorView;

    open spec fn view(&self) -> TunTapErrorView {
        match self {
            TunTapError::Nix(e) => TunTapErrorView::Nix(*e),
            TunTapError::Io(e) => TunTapErrorView::Io(e@),
            TunTapError::IfControl(e) => TunTapErrorView::IfControl(*e),
            TunTapError::NotFound { msg } => TunTapErrorView::NotFound(msg@),
            TunTapError::MaxNumberReached { max } => TunTapErrorView::MaxNumberReached(*max),
            TunTapError::NameTooLong { s, max } => TunTapErrorView::NameTooLong(*s, *max),
            TunTapError::BadArguments { msg } => TunTapErrorView::BadArguments(msg@),
            TunTapError::NotSupported { msg } => TunTapErrorView::NotSupported(msg@),
            TunTapError::DriverNotFound { msg } => TunTapErrorView::DriverNotFound(msg@),
            TunTapError::BadData { msg } => TunTapErrorView::BadData(msg@),
            TunTapError::Busy => TunTapErrorView::Busy,
            TunTapError::Other { msg } => TunTapErrorView::Other(msg@),
        }
    }
}

/// The error that a name that cannot be stored, or read back, turns into: an
/// I/O error with no OS code.
pub open spec fn name_error_view(e: IfNameError) -> TunTapErrorView {
    TunTapErrorView::Io(name_io_error(e))
}

/// A name that cannot be stored, or read back, as an error.
pub fn name_error(e: IfNameError) -> (r: TunTapError)
    ensures
        r@ == name_error_view(e),
{
    TunTapError::Io(name_io_failure(e))
}

/// The kind of a virtual interface.
#[derive(Debug, Clone, Copy, PartialEq, Eq, Structural)]
pub enum VirtualInterfaceType {
    Tun,
    Tap,
}

/// The name of a kind of interface: `tun` or `tap`.
pub open spec fn kind_name(t: VirtualInterfaceType) -> Seq<char> {
    match t {
        VirtualInterfaceType::Tun => "tun"@,
        VirtualInterfaceType::Tap => "tap"@,
    }
}

impl VirtualInterfaceType {
    /// `"tun"` or `"tap"`.
    pub fn to_string(&self) -> (r: String)
        ensures
            r@ == kind_name(*self),
    {
        match self {
            VirtualInterfaceType::Tap => "tap".to_owned(),
            VirtualInterfaceType::Tun => "tun".to_owned(),
        }
    }
}

/// What describes a virtual interface: its name and its kind.
#[derive(Debug, Clone)]
pub struct VirtualInterfaceInfo {
    pub name: String,
    pub iface_type: VirtualInterfaceType,
}

/// A tun/tap driver that provides the character devices `/dev/<dev_name>N`
/// for `N` below `max_num`.
#[derive(Debug, Clone)]
pub struct DevPath {
    pub dev_name: String,
    pub max_num: usize,
}

/// The device file of unit `idx` of the driver `dev`.
pub open spec fn device_path(dev: Seq<char>, idx: nat) -> Seq<char> {
    "/dev/"@ + dev + decimal(idx)
}

/// The interface name of unit `idx` of the driver `dev`.
pub open spec fn unit_name(dev: Seq<char>, idx: nat) -> Seq<char> {
    dev + decimal(idx)
}

fn make_device_path(dev: &String, idx: usize) -> (r: String)
    ensures
        r@ == device_path(dev@, idx as nat),
{
    let mut s = "/dev/".to_owned();
    s.append(dev.as_str());
    let d = decimal_string(idx);
    s.append(d.as_str());
    s
}

fn make_unit_name(dev: &String, idx: usize) -> (r: String)
    ensures
        r@ == unit_name(dev@, idx as nat),
{
    let mut s = dev.clone();
    let d = decimal_string(idx);
    s.append(d.as_str());
    s
}

/// Tun/tap devices of third-party macOS drivers (`/dev/tunN`, `/dev/tapN`).
pub struct TunTapOsx {
    tun: Option<DevPath>,
    tap: Option<DevPath>,
}

impl TunTapOsx {
    /// The tun driver.
    pub closed spec fn tun_driver(&self) -> Option<DevPath> {
        self.tun
    }

    /// The tap driver.
    pub closed spec fn tap_driver(&self) -> Option<DevPath> {
        self.tap
    }

    /// The driver of interfaces of kind `t`.
    pub open spec fn driver(&self, t: VirtualInterfaceType) -> Option<DevPath> {
        match t {
            VirtualInterfaceType::Tun => self.tun_driver(),
            VirtualInterfaceType::Tap => self.tap_driver(),
        }
    }

    pub fn new(tun: Option<DevPath>, tap: Option<DevPath>) -> (r: TunTapOsx)
        ensures
            r.tun_driver() == tun,
            r.tap_driver() == tap,
    {
        TunTapOsx { tun, tap }
    }

    /// The device file whose presence tells whether the driver of `t` is
    /// there: unit 0 of it. `None` where that driver is not configured (the
    /// probe then fails).
    fn probe_path(&self, t: VirtualInterfaceType) -> (r: Option<String>)
        ensures
            self.driver(t) is None ==> r is None,
            self.driver(t) matches Some(d) ==> r matches Some(p) && p@ == device_path(
                d.dev_name@,
                0,
            ),
    {
        let d = match t {
            VirtualInterfaceType::Tun => &self.tun,
            VirtualInterfaceType::Tap => &self.tap,
        };
        match d {
            Some(dp) => Some(make_device_path(&dp.dev_name, 0)),
            None => None,
        }
    }

    /// The device file whose presence tells whether the tun driver is there
    /// (`/dev/<dev_name>0`); `None` where tun is not configured.
    pub fn probe_tun(&self) -> (r: Option<String>)
        ensures
            self.tun_driver() is None ==> r is None,
            self.tun_driver() matches Some(d) ==> r matches Some(p) && p@ == device_path(
                d.dev_name@,
                0,
            ),
    {
        self.probe_path(VirtualInterfaceType::Tun)
    }

    /// The device file whose presence tells whether the tap driver is there
    /// (`/dev/<dev_name>0`); `None` where tap is not configured.
    pub fn probe_tap(&self) -> (r: Option<String>)
        ensures
            self.tap_driver() is None ==> r is None,
            self.tap_driver() matches Some(d) ==> r matches Some(p) && p@ == device_path(
                d.dev_name@,
                0,
            ),
    {
        self.probe_path(VirtualInterfaceType::Tap)
    }
}

/// The drivers `tun` and `tap`, each with 16 units.
pub open spec fn default_driver(name: Seq<char>, d: Option<DevPath>) -> bool {
    d matches Some(p) && p.dev_name@ == name && p.max_num == 16
}

impl Default for TunTapOsx {
    fn default() -> (r: TunTapOsx)
        ensures
            default_driver("tun"@, r.tun_driver()),
            default_driver("tap"@, r.tap_driver()),
    {
        TunTapOsx {
            tun: Some(DevPath { dev_name: "tun".to_owned(), max_num: 16 }),
            tap: Some(DevPath { dev_name: "tap".to_owned(), max_num: 16 }),
        }
    }
}

/// What came of the last action of an interface creation.
#[derive(Debug)]
pub enum CreateEvent {
    /// Whether the device file exists.
    PathChecked(bool),
    /// The outcome of opening the device file for reading and writing.
    Opened(Result<(), IoError>),
    /// The outcome of finding the interface and bringing it up.
    BroughtUp(Result<(), IfError>),
}

/// What to do next to create an interface.
#[derive(Debug)]
pub enum CreateAction {
    /// Check whether this device file exists.
    CheckPath(String),
    /// Open this device file for reading and writing, and keep it.
    Open(String),
    /// Find the interface of this name and bring it up.
    BringUp(String),
    /// The creation ended. On success the file opened last belongs to the
    /// interface described; on failure it is to be closed.
    Finish(Result<VirtualInterfaceInfo, TunTapError>),
}

/// A `CreateAction` with its texts as character sequences.
pub enum CreateActionView {
    CheckPath(Seq<char>),
    Open(Seq<char>),
    BringUp(Seq<char>),
    Finish(Result<(Seq<char>, VirtualInterfaceType), TunTapErrorView>),
}

impl View for CreateAction {
    type V = CreateActionView;

    open spec fn view(&self) -> CreateActionView {
        match self {
            CreateAction::CheckPath(p) => CreateActionView::CheckPath(p@),
            CreateAction::Open(p) => CreateActionView::Open(p@),
            CreateAction::BringUp(n) => CreateActionView::BringUp(n@),
            CreateAction::Finish(Ok(info)) => CreateActionView::Finish(
                Ok((info.name@, info.iface_type)),
            ),
            CreateAction::Finish(Err(e)) => CreateActionView::Finish(Err(e@)),
        }
    }
}

/// Where an interface creation stands.
#[derive(Debug, Clone, Copy, PartialEq, Eq, Structural)]
pub enum CreateStage {
    /// Waiting to learn whether the device file exists.
    Check,
    /// Waiting for the device file to open.
    Open,
    /// Waiting for the interface to come up.
    BringUp,
    Finished,
}

/// The creation of an interface of kind `iface_type` on the unit `idx` of the
/// driver `dev_name`: of that unit alone (`single`), or of the first unit
/// below `max_num` that is not busy.
#[derive(Debug, Clone)]
pub struct DeviceCreation {
    pub dev_name: String,
    pub iface_type: VirtualInterfaceType,
    pub single: bool,
    pub max_num: usize,
    pub idx: usize,
    pub stage: CreateStage,
}

/// The text of the error for a device file that does not exist.
pub open spec fn missing_path_text(path: Seq<char>) -> Seq<char> {
    "'"@ + path + "' not exists"@
}

/// The text of the error for a driver that is not configured.
pub open spec fn not_configured_text(t: VirtualInterfaceType) -> Seq<char> {
    kind_name(t) + " is not configured in backend"@
}

/// Whether `e` answers the action that the stage `st` waits for.
pub open spec fn event_fits(st: CreateStage, e: CreateEvent) -> bool {
    match st {
        CreateStage::Check => e is PathChecked,
        CreateStage::Open => e is Opened,
        CreateStage::BringUp => e is BroughtUp,
        CreateStage::Finished => false,
    }
}

impl DeviceCreation {
    /// A scan goes on only below its bound.
    pub open spec fn wf(&self) -> bool {
        self.stage != CreateStage::Finished && !self.single ==> self.idx < self.max_num
    }
}

/// The next state and action of `s` after the event `e`.
pub open spec fn create_step(s: DeviceCreation, e: CreateEvent) -> (DeviceCreation, CreateActionView) {
    let path = device_path(s.dev_name@, s.idx as nat);
    let name = unit_name(s.dev_name@, s.idx as nat);
    let fin = DeviceCreation { stage: CreateStage::Finished, ..s };
    match e {
        CreateEvent::PathChecked(exists) => if exists {
            (DeviceCreation { stage: CreateStage::Open, ..s }, CreateActionView::Open(path))
        } else {
            (
                fin,
                CreateActionView::Finish(
                    Err(TunTapErrorView::NotSupported(missing_path_text(path))),
                ),
            )
        },
        CreateEvent::Opened(Ok(())) => (
            DeviceCreation { stage: CreateStage::BringUp, ..s },
            CreateActionView::BringUp(name),
        ),
        CreateEvent::Opened(Err(err)) => if err.raw_os_error == Some(EBUSY) {
            if s.single {
                (fin, CreateActionView::Finish(Err(TunTapErrorView::Busy)))
            } else if s.idx + 1 < s.max_num {
                (
                    DeviceCreation { idx: (s.idx + 1) as usize, stage: CreateStage::Check, ..s },
                    CreateActionView::CheckPath(device_path(s.dev_name@, (s.idx + 1) as nat)),
                )
            } else {
                (
                    fin,
                    CreateActionView::Finish(Err(TunTapErrorView::MaxNumberReached(s.max_num))),
                )
            }
        } else {
            (fin, CreateActionView::Finish(Err(TunTapErrorView::Io(err@))))
        },
        CreateEvent::BroughtUp(Ok(())) => (fin, CreateActionView::Finish(Ok((name, s.iface_type)))),
        CreateEvent::BroughtUp(Err(err)) => (
            fin,
            CreateActionView::Finish(Err(TunTapErrorView::IfControl(err))),
        ),
    }
}

/// The state and first action of creating an interface of kind `t` with the
/// driver `d`, on unit `dev_idx` or on the first free unit.
pub open spec fn create_start(d: DevPath, t: VirtualInterfaceType, dev_idx: Option<usize>) -> (
    DeviceCreation,
    CreateActionView,
) {
    let idx: usize = match dev_idx {
        Some(i) => i,
        None => 0,
    };
    let s = DeviceCreation {
        dev_name: d.dev_name,
        iface_type: t,
        single: dev_idx is Some,
        max_num: d.max_num,
        idx,
        stage: CreateStage::Check,
    };
    if dev_idx is None && d.max_num == 0 {
        (
            DeviceCreation { stage: CreateStage::Finished, ..s },
            CreateActionView::Finish(Err(TunTapErrorView::MaxNumberReached(0))),
        )
    } else {
        (s, CreateActionView::CheckPath(device_path(d.dev_name@, idx as nat)))
    }
}

impl DeviceCreation {
    /// Takes what came of the last action; returns the next action.
    pub fn step(&mut self, e: CreateEvent) -> (r: CreateAction)
        requires
            old(self).wf(),
            event_fits(old(self).stage, e),
        ensures
            final(self).wf(),
            *final(self) == create_step(*old(self), e).0,
            r@ == create_step(*old(self), e).1,
    {
        match e {
            CreateEvent::PathChecked(exists) => {
                let path = make_device_path(&self.dev_name, self.idx);
                if exists {
                    self.stage = CreateStage::Open;
                    CreateAction::Open(path)
                } else {
                    self.stage = CreateStage::Finished;
                    let mut msg = "'".to_owned();
                    msg.append(path.as_str());
                    msg.append("' not exists");
                    CreateAction::Finish(Err(TunTapError::NotSupported { msg }))
                }
            },
            CreateEvent::Opened(Ok(())) => {
                self.stage = CreateStage::BringUp;
                CreateAction::BringUp(make_unit_name(&self.dev_name, self.idx))
            },
            CreateEvent::Opened(Err(err)) => {
                let busy = match err.raw_os_error {
                    Some(code) => code == EBUSY,
                    None => false,
                };
                if busy {
                    if self.single {
                        self.stage = CreateStage::Finished;
                        CreateAction::Finish(Err(TunTapError::Busy))
                    } else if self.idx + 1 < self.max_num {
                        self.idx = self.idx + 1;
                        self.stage = CreateStage::Check;
                        CreateAction::CheckPath(make_device_path(&self.dev_name, self.idx))
                    } else {
                        self.stage = CreateStage::Finished;
                        CreateAction::Finish(Err(TunTapError::MaxNumberReached { max: self.max_num }))
                    }
                } else {
                    self.stage = CreateStage::Finished;
                    CreateAction::Finish(Err(TunTapError::Io(err)))
                }
            },
            CreateEvent::BroughtUp(Ok(())) => {
                self.stage = CreateStage::Finished;
                let name = make_unit_name(&self.dev_name, self.idx);
                CreateAction::Finish(Ok(VirtualInterfaceInfo { name, iface_type: self.iface_type }))
            },
            CreateEvent::BroughtUp(Err(err)) => {
                self.stage = CreateStage::Finished;
                CreateAction::Finish(Err(TunTapError::IfControl(err)))
            },
        }
    }
}

impl TunTapOsx {
    fn create(&self, t: VirtualInterfaceType, dev_idx: Option<usize>) -> (r: Result<
        (DeviceCreation, CreateAction),
        TunTapError,
    >)
        ensures
            self.driver(t) is None ==> (r matches Err(e) && e@ == TunTapErrorView::NotSupported(
                not_configured_text(t),
            )),
            self.driver(t) matches Some(d) ==> r matches Ok((s, a)) && s == create_start(
                d,
                t,
                dev_idx,
            ).0 && a@ == create_start(d, t, dev_idx).1 && s.wf(),
    {
        let d = match t {
            VirtualInterfaceType::Tun => &self.tun,
            VirtualInterfaceType::Tap => &self.tap,
        };
        match d {
            None => {
                let kind = t.to_string();
                let mut msg = kind;
                msg.append(" is not configured in backend");
                Err(TunTapError::NotSupported { msg })
            },
            Some(dp) => {
                let (single, idx) = match dev_idx {
                    Some(i) => (true, i),
                    None => (false, 0),
                };
                let mut s = DeviceCreation {
                    dev_name: dp.dev_name.clone(),
                    iface_type: t,
                    single,
                    max_num: dp.max_num,
                    idx,
                    stage: CreateStage::Check,
                };
                if !single && dp.max_num == 0 {
                    s.stage = CreateStage::Finished;
                    Ok((s, CreateAction::Finish(Err(TunTapError::MaxNumberReached { max: 0 }))))
                } else {
                    let path = make_device_path(&s.dev_name, idx);
                    Ok((s, CreateAction::CheckPath(path)))
                }
            },
        }
    }

    /// Starts creating a tun interface: on unit `dev_idx`, or on the first of
    /// the driver's units that is not busy. Fails where tun is not configured.
    pub fn create_tun(&self, dev_idx: Option<usize>) -> (r: Result<
        (DeviceCreation, CreateAction),
        TunTapError,
    >)
        ensures
            self.tun_driver() is None ==> (r matches Err(e) && e@ == TunTapErrorView::NotSupported(
                not_configured_text(VirtualInterfaceType::Tun),
            )),
            self.tun_driver() matches Some(d) ==> r matches Ok((s, a)) && s == create_start(
                d,
                VirtualInterfaceType::Tun,
                dev_idx,
            ).0 && a@ == create_start(d, VirtualInterfaceType::Tun, dev_idx).1 && s.wf(),
    {
        self.create(VirtualInterfaceType::Tun, dev_idx)
    }

    /// Starts creating a tap interface: on unit `dev_idx`, or on the first of
    /// the driver's units that is not busy. Fails where tap is not configured.
    pub fn create_tap(&self, dev_idx: Option<usize>) -> (r: Result<
        (DeviceCreation, CreateAction),
        TunTapError,
    >)
        ensures
            self.tap_driver() is None ==> (r matches Err(e) && e@ == TunTapErrorView::NotSupported(
                not_configured_text(VirtualInterfaceType::Tap),
            )),
            self.tap_driver() matches Some(d) ==> r matches Ok((s, a)) && s == create_start(
                d,
                VirtualInterfaceType::Tap,
                dev_idx,
            ).0 && a@ == create_start(d, VirtualInterfaceType::Tap, dev_idx).1 && s.wf(),
    {
        self.create(VirtualInterfaceType::Tap, dev_idx)
    }
}

/// What the system answers, for one unit of a driver, to the actions of an
/// interface creation.
pub struct UnitResponse {
    /// Whether the unit's device file exists.
    pub exists: bool,
    /// What opening it gives.
    pub open: Result<(), IoError>,
    /// What finding its interface and bringing it up gives.
    pub up: Result<(), IfError>,
}

/// The answer that the system `w` gives to the action that `s` waits for.
pub open spec fn event_for(s: DeviceCreation, w: spec_fn(usize) -> UnitResponse) -> CreateEvent {
    match s.stage {
        CreateStage::Check => CreateEvent::PathChecked(w(s.idx).exists),
        CreateStage::Open => CreateEvent::Opened(w(s.idx).open),
        _ => CreateEvent::BroughtUp(w(s.idx).up),
    }
}

/// The outcome of a creation in the state `s` with the pending action `a`,
/// when the system `w` answers each action, within `fuel` steps.
pub open spec fn run_creation(
    s: DeviceCreation,
    a: CreateActionView,
    w: spec_fn(usize) -> UnitResponse,
    fuel: nat,
) -> Option<Result<(Seq<char>, VirtualInterfaceType), TunTapErrorView>>
    decreases fuel,
{
    match a {
        CreateActionView::Finish(r) => Some(r),
        _ => if fuel == 0 {
            None
        } else {
            let next = create_step(s, event_for(s, w));
            run_creation(next.0, next.1, w, (fuel - 1) as nat)
        },
    }
}

/// Opening unit `idx` of the driver `dev` where the system is `w`: a unit
/// whose device file is missing is an error; a busy unit gives `None`; an
/// open unit whose interface comes up gives the interface's name.
pub open spec fn try_unit(dev: Seq<char>, idx: usize, w: spec_fn(usize) -> UnitResponse) -> Option<
    Result<Seq<char>, TunTapErrorView>,
> {
    let r = w(idx);
    if !r.exists {
        Some(Err(TunTapErrorView::NotSupported(missing_path_text(device_path(dev, idx as nat)))))
    } else {
        match r.open {
            Err(e) => if e.raw_os_error == Some(EBUSY) {
                None
            } else {
                Some(Err(TunTapErrorView::Io(e@)))
            },
            Ok(()) => match r.up {
                Err(e) => Some(Err(TunTapErrorView::IfControl(e))),
                Ok(()) => Some(Ok(unit_name(dev, idx as nat))),
            },
        }
    }
}

/// Opening the first unit from `from` on, below `max`, that is not busy.
pub open spec fn scan_units(
    dev: Seq<char>,
    max: usize,
    w: spec_fn(usize) -> UnitResponse,
    from: usize,
) -> Result<Seq<char>, TunTapErrorView>
    decreases max - from,
{
    if from >= max {
        Err(TunTapErrorView::MaxNumberReached(max))
    } else {
        match try_unit(dev, from, w) {
            Some(r) => r,
            None => scan_units(dev, max, w, (from + 1) as usize),
        }
    }
}

/// The interface described by a name and a kind.
pub open spec fn with_kind(r: Result<Seq<char>, TunTapErrorView>, t: VirtualInterfaceType) -> Result<
    (Seq<char>, VirtualInterfaceType),
    TunTapErrorView,
> {
    match r {
        Ok(n) => Ok((n, t)),
        Err(e) => Err(e),
    }
}

/// Creating an interface of kind `t` with the driver `d` where the system is
/// `w`: on unit `dev_idx` (busy there is an error), or on the first unit that
/// is not busy.
pub open spec fn create_result(
    d: DevPath,
    t: VirtualInterfaceType,
    dev_idx: Option<usize>,
    w: spec_fn(usize) -> UnitResponse,
) -> Result<(Seq<char>, VirtualInterfaceType), TunTapErrorView> {
    match dev_idx {
        Some(i) => match try_unit(d.dev_name@, i, w) {
            None => Err(TunTapErrorView::Busy),
            Some(r) => with_kind(r, t),
        },
        None => with_kind(scan_units(d.dev_name@, d.max_num, w, 0), t),
    }
}

proof fn lemma_scan(s: DeviceCreation, w: spec_fn(usize) -> UnitResponse, fuel: nat)
    requires
        s.stage == CreateStage::Check,
        !s.single,
        s.idx < s.max_num,
        fuel >= 2 * (s.max_num - s.idx) + 1,
    ensures
        run_creation(
            s,
            CreateActionView::CheckPath(device_path(s.dev_name@, s.idx as nat)),
            w,
            fuel,
        ) == Some(with_kind(scan_units(s.dev_name@, s.max_num, w, s.idx), s.iface_type)),
    decreases s.max_num - s.idx,
{
    let a0 = CreateActionView::CheckPath(device_path(s.dev_name@, s.idx as nat));
    let n1 = create_step(s, event_for(s, w));
    assert(run_creation(s, a0, w, fuel) == run_creation(n1.0, n1.1, w, (fuel - 1) as nat));
    if w(s.idx).exists {
        let n2 = create_step(n1.0, event_for(n1.0, w));
        assert(run_creation(n1.0, n1.1, w, (fuel - 1) as nat) == run_creation(
            n2.0,
            n2.1,
            w,
            (fuel - 2) as nat,
        ));
        match w(s.idx).open {
            Ok(()) => {
                let n3 = create_step(n2.0, event_for(n2.0, w));
                assert(run_creation(n2.0, n2.1, w, (fuel - 2) as nat) == run_creation(
                    n3.0,
                    n3.1,
                    w,
                    (fuel - 3) as nat,
                ));
            },
            Err(e) => {
                if e.raw_os_error == Some(EBUSY) {
                    assert(try_unit(s.dev_name@, s.idx, w) is None);
                    assert(scan_units(s.dev_name@, s.max_num, w, s.idx) == scan_units(
                        s.dev_name@,
                        s.max_num,
                        w,
                        (s.idx + 1) as usize,
                    ));
                    if s.idx + 1 < s.max_num {
                        lemma_scan(n2.0, w, (fuel - 2) as nat);
                    } else {
                        assert(scan_units(s.dev_name@, s.max_num, w, (s.idx + 1) as usize) == Err::<
                            Seq<char>,
                            TunTapErrorView,
                        >(TunTapErrorView::MaxNumberReached(s.max_num)));
                    }
                }
            },
        }
    }
}

/// Running an interface creation, with the system answering each action as
/// `w` does, ends as creating the interface directly does: on the requested
/// unit, or on the first unit of the driver that is not busy.
pub proof fn lemma_creation_matches(
    d: DevPath,
    t: VirtualInterfaceType,
    dev_idx: Option<usize>,
    w: spec_fn(usize) -> UnitResponse,
)
    ensures
        run_creation(
            create_start(d, t, dev_idx).0,
            create_start(d, t, dev_idx).1,
            w,
            (2 * d.max_num + 3) as nat,
        ) == Some(create_result(d, t, dev_idx, w)),
{
    let s = create_start(d, t, dev_idx).0;
    let a = create_start(d, t, dev_idx).1;
    let fuel = (2 * d.max_num + 3) as nat;
    match dev_idx {
        Some(i) => {
            let n1 = create_step(s, event_for(s, w));
            assert(run_creation(s, a, w, fuel) == run_creation(n1.0, n1.1, w, (fuel - 1) as nat));
            if w(i).exists {
                let n2 = create_step(n1.0, event_for(n1.0, w));
                assert(run_creation(n1.0, n1.1, w, (fuel - 1) as nat) == run_creation(
                    n2.0,
                    n2.1,
                    w,
                    (fuel - 2) as nat,
                ));
                if w(i).open is Ok {
                    let n3 = create_step(n2.0, event_for(n2.0, w));
                    assert(run_creation(n2.0, n2.1, w, (fuel - 2) as nat) == run_creation(
                        n3.0,
                        n3.1,
                        w,
                        (fuel - 3) as nat,
                    ));
                }
            }
        },
        None => {
            if d.max_num > 0 {
                lemma_scan(s, w, fuel);
            }
        },
    }
}

/// What came of the last action of creating a Linux tun/tap interface.
#[derive(Debug)]
pub enum LinuxEvent {
    /// The outcome of opening `/dev/net/tun` for reading and writing.
    DeviceOpened(Result<(), IoError>),
    /// The outcome of `TUNSETIFF` (and of making the file non-blocking where
    /// asked): the request as the kernel left it.
    InterfaceSet(Result<ifreq, NixError>),
    /// The outcome of bringing the interface up.
    BroughtUp(Result<(), IfError>),
}

/// What to do next to create a Linux tun/tap interface.
#[derive(Debug)]
pub enum LinuxAction {
    /// Open `/dev/net/tun` for reading and writing, and keep the file.
    OpenDevice,
    /// Issue `TUNSETIFF` with this request on the file opened last; where
    /// `nonblocking` holds, then make the file non-blocking.
    SetInterface { request: ifreq, nonblocking: bool },
    /// Bring the interface of this name up.
    BringUp(String),
    /// The creation ended: on success every file opened belongs to the
    /// interface of this name; on failure they are to be closed.
    Finish(Result<String, TunTapError>),
}

/// A `LinuxAction` with its texts as character sequences.
pub enum LinuxActionView {
    OpenDevice,
    /// The request's name buffer, flag word, interface index and address,
    /// and whether to make the file non-blocking.
    SetInterface(Seq<u8>, i16, i32, Seq<u8>, bool),
    BringUp(Seq<char>),
    Finish(Result<Seq<char>, TunTapErrorView>),
}

impl View for LinuxAction {
    type V = LinuxActionView;

    open spec fn view(&self) -> LinuxActionView {
        match self {
            LinuxAction::OpenDevice => LinuxActionView::OpenDevice,
            LinuxAction::SetInterface { request, nonblocking } => LinuxActionView::SetInterface(
                request.ifr_name@,
                request.ifr_flags,
                request.ifr_ifindex,
                request.ifr_addr@,
                *nonblocking,
            ),
            LinuxAction::BringUp(n) => LinuxActionView::BringUp(n@),
            LinuxAction::Finish(Ok(n)) => LinuxActionView::Finish(Ok(n@)),
            LinuxAction::Finish(Err(e)) => LinuxActionView::Finish(Err(e@)),
        }
    }
}

/// Where a Linux interface creation stands.
#[derive(Debug, Clone, Copy, PartialEq, Eq, Structural)]
pub enum LinuxStage {
    Open,
    SetInterface,
    BringUp,
    Finished,
}

/// The creation of a Linux tun/tap interface with `queues` queues, each a
/// file of `/dev/net/tun` attached to the interface. The first queue asks for
/// the name `name` (empty: the kernel picks one); the others, and bringing the
/// interface up, use the name that the kernel gave.
#[derive(Debug, Clone)]
pub struct LinuxCreation {
    pub name: String,
    pub flags: TunTapFlags,
    pub queues: usize,
    /// How many queues are attached.
    pub attached: usize,
    pub nonblocking: bool,
    pub stage: LinuxStage,
}

/// A `LinuxCreation` with its name as a character sequence.
pub struct LinuxCreationView {
    pub name: Seq<char>,
    pub flags: TunTapFlags,
    pub queues: usize,
    pub attached: usize,
    pub nonblocking: bool,
    pub stage: LinuxStage,
}

impl View for LinuxCreation {
    type V = LinuxCreationView;

    open spec fn view(&self) -> LinuxCreationView {
        LinuxCreationView {
            name: self.name@,
            flags: self.flags,
            queues: self.queues,
            attached: self.attached,
            nonblocking: self.nonblocking,
            stage: self.stage,
        }
    }
}

impl LinuxCreation {
    pub open spec fn wf(&self) -> bool {
        &&& self.attached < self.queues
        &&& self.stage == LinuxStage::BringUp ==> self.attached + 1 == self.queues
    }
}

/// Whether `e` answers the action that the stage `st` waits for.
pub open spec fn linux_event_fits(st: LinuxStage, e: LinuxEvent) -> bool {
    match st {
        LinuxStage::Open => e is DeviceOpened,
        LinuxStage::SetInterface => e is InterfaceSet,
        LinuxStage::BringUp => e is BroughtUp,
        LinuxStage::Finished => false,
    }
}

/// The flags of a tun/tap interface of kind `t` with `queues` queues: no
/// packet information, tun or tap, and multi-queue where there is more than
/// one queue.
pub open spec fn linux_flags(t: VirtualInterfaceType, queues: usize) -> i16 {
    let base: i16 = 0x1000 | match t {
        VirtualInterfaceType::Tun => 0x0001i16,
        VirtualInterfaceType::Tap => 0x0002i16,
    };
    if queues > 1 {
        base | 0x0100
    } else {
        base
    }
}

/// The next state and action of a Linux interface creation after the event `e`.
pub open spec fn linux_step(s: LinuxCreationView, e: LinuxEvent) -> (LinuxCreationView, LinuxActionView) {
    let fin = LinuxCreationView { stage: LinuxStage::Finished, ..s };
    let name_bytes = encode_utf8(s.name);
    match e {
        LinuxEvent::DeviceOpened(Err(err)) => (
            fin,
            LinuxActionView::Finish(Err(TunTapErrorView::Io(err@))),
        ),
        LinuxEvent::DeviceOpened(Ok(())) => {
            if set_name_outcome_ok(name_bytes) {
                (
                    LinuxCreationView { stage: LinuxStage::SetInterface, ..s },
                    LinuxActionView::SetInterface(
                        stored_name(zeros(IFNAMSIZ as nat), name_bytes),
                        s.flags.bits,
                        0,
                        zeros(SOCKADDR_SIZE as nat),
                        s.nonblocking,
                    ),
                )
            } else {
                (
                    fin,
                    LinuxActionView::Finish(
                        Err(name_error_view(crate::ifname::set_name_outcome(name_bytes)->Err_0)),
                    ),
                )
            }
        },
        LinuxEvent::InterfaceSet(Err(err)) => (
            fin,
            LinuxActionView::Finish(Err(TunTapErrorView::Nix(err))),
        ),
        LinuxEvent::InterfaceSet(Ok(req)) => match name_text(req.ifr_name@) {
            None => (fin, LinuxActionView::Finish(Err(name_error_view(IfNameError::Malformed)))),
            Some(given) => {
                let name = if s.attached == 0 {
                    given
                } else {
                    s.name
                };
                if s.attached + 1 < s.queues {
                    (
                        LinuxCreationView {
                            name,
                            attached: (s.attached + 1) as usize,
                            stage: LinuxStage::Open,
                            ..s
                        },
                        LinuxActionView::OpenDevice,
                    )
                } else {
                    (
                        LinuxCreationView { name, stage: LinuxStage::BringUp, ..s },
                        LinuxActionView::BringUp(name),
                    )
                }
            },
        },
        LinuxEvent::BroughtUp(Err(err)) => (
            fin,
            LinuxActionView::Finish(Err(TunTapErrorView::IfControl(err))),
        ),
        LinuxEvent::BroughtUp(Ok(())) => (fin, LinuxActionView::Finish(Ok(s.name))),
    }
}

/// Whether a name with these bytes can be stored.
pub open spec fn set_name_outcome_ok(name: Seq<u8>) -> bool {
    crate::ifname::set_name_outcome(name) is Ok
}

impl LinuxCreation {
    /// Takes what came of the last action; returns the next action.
    pub fn step(&mut self, e: LinuxEvent) -> (r: LinuxAction)
        requires
            old(self).wf(),
            linux_event_fits(old(self).stage, e),
        ensures
            final(self).wf(),
            final(self)@ == linux_step(old(self)@, e).0,
            r@ == linux_step(old(self)@, e).1,
    {
        match e {
            LinuxEvent::DeviceOpened(Err(err)) => {
                self.stage = LinuxStage::Finished;
                LinuxAction::Finish(Err(TunTapError::Io(err)))
            },
            LinuxEvent::DeviceOpened(Ok(())) => {
                match ifreq::from_name(self.name.as_str()) {
                    Ok(mut req) => {
                        req.set_raw_flags(self.flags.bits());
                        self.stage = LinuxStage::SetInterface;
                        LinuxAction::SetInterface { request: req, nonblocking: self.nonblocking }
                    },
                    Err(ne) => {
                        self.stage = LinuxStage::Finished;
                        LinuxAction::Finish(Err(name_error(ne)))
                    },
                }
            },
            LinuxEvent::InterfaceSet(Err(err)) => {
                self.stage = LinuxStage::Finished;
                LinuxAction::Finish(Err(TunTapError::Nix(err)))
            },
            LinuxEvent::InterfaceSet(Ok(req)) => {
                match req.get_name() {
                    Err(ne) => {
                        self.stage = LinuxStage::Finished;
                        LinuxAction::Finish(Err(name_error(ne)))
                    },
                    Ok(given) => {
                        if self.attached == 0 {
                            self.name = given;
                        }
                        if self.attached + 1 < self.queues {
                            self.attached = self.attached + 1;
                            self.stage = LinuxStage::Open;
                            LinuxAction::OpenDevice
                        } else {
                            self.stage = LinuxStage::BringUp;
                            LinuxAction::BringUp(self.name.clone())
                        }
                    },
                }
            },
            LinuxEvent::BroughtUp(Err(err)) => {
                self.stage = LinuxStage::Finished;
                LinuxAction::Finish(Err(TunTapError::IfControl(err)))
            },
            LinuxEvent::BroughtUp(Ok(())) => {
                self.stage = LinuxStage::Finished;
                LinuxAction::Finish(Ok(self.name.clone()))
            },
        }
    }
}

/// The tun/tap interfaces of the Linux kernel (`/dev/net/tun`).
pub struct Native {}

impl Native {
    pub fn new() -> (r: Native) {
        Native {}
    }

    /// Starts creating a Linux interface of kind `iface_type` named `name`
    /// (the kernel picks one where it is `None`), with `queues` queues,
    /// non-blocking where `is_async` holds. Fails on an empty name and on zero
    /// queues.
    pub fn create(
        &self,
        name: Option<&str>,
        iface_type: VirtualInterfaceType,
        is_async: bool,
        queues: usize,
    ) -> (r: Result<(LinuxCreation, LinuxAction), TunTapError>)
        ensures
            linux_start_matches(r, name, iface_type, is_async, queues),
    {
        if let Some(s) = name {
            if s.is_empty() {
                return Err(TunTapError::BadArguments { msg: "name is empty".to_owned() });
            }
        }
        if queues == 0 {
            return Err(TunTapError::BadArguments { msg: "should be at least 1 queue".to_owned() });
        }
        let mut flags = TunTapFlags::IFF_NO_PI();
        flags.insert(
            match iface_type {
                VirtualInterfaceType::Tun => TunTapFlags::IFF_TUN(),
                VirtualInterfaceType::Tap => TunTapFlags::IFF_TAP(),
            },
        );
        if queues > 1 {
            flags.insert(TunTapFlags::IFF_MULTI_QUEUE());
        }
        let requested = match name {
            Some(n) => n.to_owned(),
            None => String::new(),
        };
        let s = LinuxCreation {
            name: requested,
            flags,
            queues,
            attached: 0,
            nonblocking: is_async,
            stage: LinuxStage::Open,
        };
        Ok((s, LinuxAction::OpenDevice))
    }

    /// Starts creating a tun interface (`Native::create`).
    pub fn create_tun(&self, name: Option<&str>, queues: usize) -> (r: Result<
        (LinuxCreation, LinuxAction),
        TunTapError,
    >)
        ensures
            linux_start_matches(r, name, VirtualInterfaceType::Tun, false, queues),
    {
        self.create(name, VirtualInterfaceType::Tun, false, queues)
    }

    /// Starts creating a tap interface (`Native::create`).
    pub fn create_tap(&self, name: Option<&str>, queues: usize) -> (r: Result<
        (LinuxCreation, LinuxAction),
        TunTapError,
    >)
        ensures
            linux_start_matches(r, name, VirtualInterfaceType::Tap, false, queues),
    {
        self.create(name, VirtualInterfaceType::Tap, false, queues)
    }

    /// Starts creating a non-blocking tun interface (`Native::create`).
    pub fn create_tun_async(&self, name: Option<&str>, queues: usize) -> (r: Result<
        (LinuxCreation, LinuxAction),
        TunTapError,
    >)
        ensures
            linux_start_matches(r, name, VirtualInterfaceType::Tun, true, queues),
    {
        self.create(name, VirtualInterfaceType::Tun, true, queues)
    }

    /// Starts creating a non-blocking tap interface (`Native::create`).
    pub fn create_tap_async(&self, name: Option<&str>, queues: usize) -> (r: Result<
        (LinuxCreation, LinuxAction),
        TunTapError,
    >)
        ensures
            linux_start_matches(r, name, VirtualInterfaceType::Tap, true, queues),
    {
        self.create(name, VirtualInterfaceType::Tap, true, queues)
    }
}

/// The start of a Linux interface creation: an empty name and zero queues are
/// bad arguments; otherwise the creation waits to open its first queue, with
/// the requested name (empty where none is) and the flags of its kind.
pub open spec fn linux_start(
    name: Option<&str>,
    t: VirtualInterfaceType,
    is_async: bool,
    queues: usize,
) -> Result<LinuxCreationView, TunTapErrorView> {
    if name matches Some(n) && n@.len() == 0 {
        Err(TunTapErrorView::BadArguments("name is empty"@))
    } else if queues == 0 {
        Err(TunTapErrorView::BadArguments("should be at least 1 queue"@))
    } else {
        Ok(
            LinuxCreationView {
                name: match name {
                    Some(n) => n@,
                    None => Seq::empty(),
                },
                flags: TunTapFlags { bits: linux_flags(t, queues) },
                queues,
                attached: 0,
                nonblocking: is_async,
                stage: LinuxStage::Open,
            },
        )
    }
}

/// Whether `r` is the start `linux_start` describes, with the first action
/// `OpenDevice`.
pub open spec fn linux_start_matches(
    r: Result<(LinuxCreation, LinuxAction), TunTapError>,
    name: Option<&str>,
    t: VirtualInterfaceType,
    is_async: bool,
    queues: usize,
) -> bool {
    match linux_start(name, t, is_async, queues) {
        Err(e) => r matches Err(x) && x@ == e,
        Ok(v) => r matches Ok((s, a)) && s@ == v && s.wf() && a@ == LinuxActionView::OpenDevice,
    }
}

/// What the system answers, for one queue, to the actions of a Linux
/// interface creation.
pub struct QueueResponse {
    /// What opening `/dev/net/tun` gives.
    pub open: Result<(), IoError>,
    /// What `TUNSETIFF` gives: the request as the kernel left it.
    pub set: Result<ifreq, NixError>,
}

/// The answer that the system gives to the action that `s` waits for: `w`
/// answers for each queue, `up` for bringing the interface up.
pub open spec fn linux_event_for(
    s: LinuxCreationView,
    w: spec_fn(usize) -> QueueResponse,
    up: Result<(), IfError>,
) -> LinuxEvent {
    match s.stage {
        LinuxStage::Open => LinuxEvent::DeviceOpened(w(s.attached).open),
        LinuxStage::SetInterface => LinuxEvent::InterfaceSet(w(s.attached).set),
        _ => LinuxEvent::BroughtUp(up),
    }
}

/// The outcome of a Linux creation in the state `s` with the pending action
/// `a`, when the system answers each action, within `fuel` steps.
pub open spec fn run_linux(
    s: LinuxCreationView,
    a: LinuxActionView,
    w: spec_fn(usize) -> QueueResponse,
    up: Result<(), IfError>,
    fuel: nat,
) -> Option<Result<Seq<char>, TunTapErrorView>>
    decreases fuel,
{
    match a {
        LinuxActionView::Finish(r) => Some(r),
        _ => if fuel == 0 {
            None
        } else {
            let next = linux_step(s, linux_event_for(s, w, up));
            run_linux(next.0, next.1, w, up, (fuel - 1) as nat)
        },
    }
}

/// Attaching queue `k` to the interface named `name`: open `/dev/net/tun`,
/// store the name in a request, issue `TUNSETIFF`, read back the name that
/// the kernel gave.
pub open spec fn queue_result(name: Seq<char>, k: usize, w: spec_fn(usize) -> QueueResponse) -> Result<
    Seq<char>,
    TunTapErrorView,
> {
    match w(k).open {
        Err(e) => Err(TunTapErrorView::Io(e@)),
        Ok(()) => if !set_name_outcome_ok(encode_utf8(name)) {
            Err(name_error_view(crate::ifname::set_name_outcome(encode_utf8(name))->Err_0))
        } else {
            match w(k).set {
                Err(e) => Err(TunTapErrorView::Nix(e)),
                Ok(req) => match name_text(req.ifr_name@) {
                    None => Err(name_error_view(IfNameError::Malformed)),
                    Some(n) => Ok(n),
                },
            }
        },
    }
}

/// Attaching the queues from `k` on, below `queues`, to the interface `name`.
pub open spec fn queues_from(name: Seq<char>, k: usize, queues: usize, w: spec_fn(usize) -> QueueResponse) -> Result<
    (),
    TunTapErrorView,
>
    decreases queues - k,
{
    if k >= queues {
        Ok(())
    } else {
        match queue_result(name, k, w) {
            Err(e) => Err(e),
            Ok(_) => queues_from(name, (k + 1) as usize, queues, w),
        }
    }
}

/// Bringing the interface `name` up once its queues are attached.
pub open spec fn finish_up(name: Seq<char>, rest: Result<(), TunTapErrorView>, up: Result<(), IfError>) -> Result<
    Seq<char>,
    TunTapErrorView,
> {
    match rest {
        Err(e) => Err(e),
        Ok(()) => match up {
            Err(e) => Err(TunTapErrorView::IfControl(e)),
            Ok(()) => Ok(name),
        },
    }
}

/// Creating a Linux interface asked to be named `name`, with `queues` queues:
/// the first queue gets the name from the kernel, the others are attached to
/// that name, then the interface is brought up.
pub open spec fn linux_create_result(
    name: Seq<char>,
    queues: usize,
    w: spec_fn(usize) -> QueueResponse,
    up: Result<(), IfError>,
) -> Result<Seq<char>, TunTapErrorView> {
    match queue_result(name, 0, w) {
        Err(e) => Err(e),
        Ok(n) => finish_up(n, queues_from(n, 1, queues, w), up),
    }
}

proof fn lemma_linux_queues(
    s: LinuxCreationView,
    w: spec_fn(usize) -> QueueResponse,
    up: Result<(), IfError>,
    fuel: nat,
)
    requires
        s.stage == LinuxStage::Open,
        1 <= s.attached < s.queues,
        fuel >= 2 * (s.queues - s.attached) + 1,
    ensures
        run_linux(s, LinuxActionView::OpenDevice, w, up, fuel) == Some(
            finish_up(s.name, queues_from(s.name, s.attached, s.queues, w), up),
        ),
    decreases s.queues - s.attached,
{
    let n1 = linux_step(s, linux_event_for(s, w, up));
    assert(run_linux(s, LinuxActionView::OpenDevice, w, up, fuel) == run_linux(
        n1.0,
        n1.1,
        w,
        up,
        (fuel - 1) as nat,
    ));
    if w(s.attached).open is Ok && set_name_outcome_ok(encode_utf8(s.name)) {
        let n2 = linux_step(n1.0, linux_event_for(n1.0, w, up));
        assert(run_linux(n1.0, n1.1, w, up, (fuel - 1) as nat) == run_linux(
            n2.0,
            n2.1,
            w,
            up,
            (fuel - 2) as nat,
        ));
        if w(s.attached).set is Ok && name_text(w(s.attached).set->Ok_0.ifr_name@) is Some {
            assert(queues_from(s.name, s.attached, s.queues, w) == queues_from(
                s.name,
                (s.attached + 1) as usize,
                s.queues,
                w,
            ));
            if s.attached + 1 < s.queues {
                lemma_linux_queues(n2.0, w, up, (fuel - 2) as nat);
            } else {
                let n3 = linux_step(n2.0, linux_event_for(n2.0, w, up));
                assert(run_linux(n2.0, n2.1, w, up, (fuel - 2) as nat) == run_linux(
                    n3.0,
                    n3.1,
                    w,
                    up,
                    (fuel - 3) as nat,
                ));
            }
        }
    }
}

/// Running a Linux interface creation, with the system answering each action,
/// ends as creating the interface directly does: the first queue gets the
/// kernel's name, every other queue is attached under it, and the interface is
/// brought up; the first failure ends it.
pub proof fn lemma_linux_creation_matches(
    s: LinuxCreationView,
    w: spec_fn(usize) -> QueueResponse,
    up: Result<(), IfError>,
)
    requires
        s.stage == LinuxStage::Open,
        s.attached == 0,
        s.queues >= 1,
    ensures
        run_linux(s, LinuxActionView::OpenDevice, w, up, (2 * s.queues + 1) as nat) == Some(
            linux_create_result(s.name, s.queues, w, up),
        ),
{
    let fuel = (2 * s.queues + 1) as nat;
    let n1 = linux_step(s, linux_event_for(s, w, up));
    assert(run_linux(s, LinuxActionView::OpenDevice, w, up, fuel) == run_linux(
        n1.0,
        n1.1,
        w,
        up,
        (fuel - 1) as nat,
    ));
    if w(0).open is Ok && set_name_outcome_ok(encode_utf8(s.name)) {
        let n2 = linux_step(n1.0, linux_event_for(n1.0, w, up));
        assert(run_linux(n1.0, n1.1, w, up, (fuel - 1) as nat) == run_linux(
            n2.0,
            n2.1,
            w,
            up,
            (fuel - 2) as nat,
        ));
        if w(0).set is Ok && name_text(w(0).set->Ok_0.ifr_name@) is Some {
            let given = name_text(w(0).set->Ok_0.ifr_name@)->Some_0;
            assert(n2.0.name == given);
            if 1 < s.queues {
                lemma_linux_queues(n2.0, w, up, (fuel - 2) as nat);
            } else {
                assert(queues_from(given, 1, s.queues, w) == Ok::<(), TunTapErrorView>(()));
                let n3 = linux_step(n2.0, linux_event_for(n2.0, w, up));
                assert(run_linux(n2.0, n2.1, w, up, (fuel - 2) as nat) == run_linux(
                    n3.0,
                    n3.1,
                    w,
                    up,
                    (fuel - 3) as nat,
                ));
            }
        }
    }
}

/// The text that `String::from_utf8_lossy` makes of `bytes`: their UTF-8
/// decoding, with each invalid sequence replaced by U+FFFD.
pub uninterp spec fn utf8_lossy(bytes: Seq<u8>) -> Seq<char>;

/// `String::from_utf8_lossy`. The contract names its result, and states what
/// its documentation gives: on valid UTF-8 it is the decoding of the bytes.
#[verifier::external_body]
fn from_utf8_lossy(bytes: &[u8]) -> (r: String)
    ensures
        r@ == utf8_lossy(bytes@),
        valid_utf8(bytes@) ==> r@ == decode_utf8(bytes@),
{
    String::from_utf8_lossy(bytes).into_owned()
}

/// The name of a macOS utun interface as its control socket reports it
/// (`UTUN_OPT_IFNAME`): the first `len` bytes of `buf`, the last of which is a
/// NUL, decoded with invalid UTF-8 replaced.
pub fn utun_name(buf: &[u8; IFNAMSIZ], len: u32) -> (r: String)
    requires
        1 <= len <= IFNAMSIZ,
    ensures
        r@ == utf8_lossy(buf@.take(len - 1)),
        valid_utf8(buf@.take(len - 1)) ==> r@ == decode_utf8(buf@.take(len - 1)),
{
    let n = (len - 1) as usize;
    let s = buf.as_slice();
    from_utf8_lossy(&s[0..n])
}

/// The text of the error for a datagram that was written in part.
pub open spec fn partial_write_text() -> Seq<char> {
    "failed to write entire datagram to socket"@
}

/// The outcome of writing a datagram of `len` bytes of which `written` went out:
/// a datagram is written whole or the write failed.
pub fn datagram_written(written: usize, len: usize) -> (r: Result<(), IoError>)
    ensures
        r is Ok <==> written == len,
        r matches Err(e) ==> e.raw_os_error is None && e.message@ == partial_write_text(),
{
    if written == len {
        Ok(())
    } else {
        Err(IoError { raw_os_error: None, message: "failed to write entire datagram to socket".to_owned() })
    }
}

/// The length of the packet buffer after a packet was split off it, leaving
/// `remaining` bytes: once fewer than `MTU` bytes are left, it is grown back to
/// `RESERVE_AT_ONCE` bytes.
pub fn buffer_len_after_packet(remaining: usize) -> (r: usize)
    ensures
        remaining < MTU ==> r == RESERVE_AT_ONCE,
        remaining >= MTU ==> r == remaining,
{
    if remaining < MTU {
        RESERVE_AT_ONCE
    } else {
        remaining
    }
}

/// The length that the packet buffer is grown back to once `remaining` bytes
/// are left after a packet.
pub open spec fn refilled_len(remaining: usize) -> usize {
    if remaining < MTU {
        RESERVE_AT_ONCE
    } else {
        remaining
    }
}

/// What a read of a queue gave, to the thread that hands packets out.
#[derive(Debug, Clone, Copy, PartialEq, Eq, Structural)]
pub enum QueueRead {
    /// This many bytes were read.
    Read(usize),
    /// The read timed out.
    TimedOut,
    /// The read failed otherwise.
    Failed,
}

/// What the packet-reading thread does next.
#[derive(Debug, Clone, Copy, PartialEq, Eq, Structural)]
pub enum ReaderAction {
    /// Split the first `packet_len` bytes of the buffer off as a packet and
    /// hand it out (stopping where nobody takes it any more); then make the
    /// buffer `buffer_len` bytes long.
    Deliver { packet_len: usize, buffer_len: usize },
    /// Read again.
    Continue,
    /// Stop reading, and tell the writing side to stop.
    Stop,
}

/// The packet-reading thread's decision after a read into a buffer of
/// `buffer_len` bytes: a packet is handed out, and the buffer grown back once
/// fewer than `MTU` bytes are left; an empty read or a time-out reads again;
/// any other failure stops the thread.
pub open spec fn reader_decision(read: QueueRead, buffer_len: usize) -> ReaderAction {
    match read {
        QueueRead::Read(n) => if n > 0 {
            ReaderAction::Deliver {
                packet_len: n,
                buffer_len: refilled_len((buffer_len - n) as usize),
            }
        } else {
            ReaderAction::Continue
        },
        QueueRead::TimedOut => ReaderAction::Continue,
        QueueRead::Failed => ReaderAction::Stop,
    }
}

/// The packet-reading thread's decision (see `reader_decision`).
pub fn reader_step(read: QueueRead, buffer_len: usize) -> (r: ReaderAction)
    requires
        read matches QueueRead::Read(n) ==> n <= buffer_len,
    ensures
        r == reader_decision(read, buffer_len),
{
    match read {
        QueueRead::Read(n) => {
            if n > 0 {
                ReaderAction::Deliver { packet_len: n, buffer_len: buffer_len_after_packet(buffer_len - n) }
            } else {
                ReaderAction::Continue
            }
        },
        QueueRead::TimedOut => ReaderAction::Continue,
        QueueRead::Failed => ReaderAction::Stop,
    }
}

/// Running the packet-reading thread over the reads `reads`, starting with a
/// buffer of `buffer_len` bytes: the lengths of the packets it hands out, in
/// order, and whether it stopped.
pub open spec fn reader_run(reads: Seq<QueueRead>, buffer_len: usize) -> (Seq<usize>, bool)
    decreases reads.len(),
{
    if reads.len() == 0 {
        (Seq::empty(), false)
    } else {
        match reader_decision(reads[0], buffer_len) {
            ReaderAction::Deliver { packet_len, buffer_len: next } => {
                let rest = reader_run(reads.drop_first(), next);
                (seq![packet_len] + rest.0, rest.1)
            },
            ReaderAction::Continue => reader_run(reads.drop_first(), buffer_len),
            ReaderAction::Stop => (Seq::empty(), true),
        }
    }
}

/// Whether each read of `reads` fits the buffer that the thread reads into at
/// that point, starting from `buffer_len` bytes.
pub open spec fn reads_fit(reads: Seq<QueueRead>, buffer_len: usize) -> bool
    decreases reads.len(),
{
    if reads.len() == 0 {
        true
    } else {
        &&& (reads[0] matches QueueRead::Read(n) ==> n <= buffer_len)
        &&& match reader_decision(reads[0], buffer_len) {
            ReaderAction::Deliver { buffer_len: next, .. } => reads_fit(reads.drop_first(), next),
            ReaderAction::Continue => reads_fit(reads.drop_first(), buffer_len),
            ReaderAction::Stop => true,
        }
    }
}

/// The non-empty reads of `reads` before the first failure, in order.
pub open spec fn read_packets(reads: Seq<QueueRead>) -> Seq<usize>
    decreases reads.len(),
{
    if reads.len() == 0 {
        Seq::empty()
    } else {
        match reads[0] {
            QueueRead::Read(n) => if n > 0 {
                seq![n] + read_packets(reads.drop_first())
            } else {
                read_packets(reads.drop_first())
            },
            QueueRead::TimedOut => read_packets(reads.drop_first()),
            QueueRead::Failed => Seq::empty(),
        }
    }
}

/// Whether one of `reads` failed (other than by timing out).
pub open spec fn read_fails(reads: Seq<QueueRead>) -> bool
    decreases reads.len(),
{
    if reads.len() == 0 {
        false
    } else {
        reads[0] == QueueRead::Failed || read_fails(reads.drop_first())
    }
}

/// Over any sequence of reads, each a packet of at most `MTU` bytes, the
/// packet-reading thread hands out exactly the non-empty reads, in order,
/// each as a packet of its own length, until the first failure, which stops
/// it; empty reads and time-outs hand out nothing. Its buffer always holds at
/// least `MTU` bytes, so every such read fits.
pub proof fn lemma_reader_run(reads: Seq<QueueRead>, buffer_len: usize)
    requires
        MTU <= buffer_len,
        forall|i: int| 0 <= i < reads.len() ==> (#[trigger] reads[i] matches QueueRead::Read(n) ==> n <= MTU),
    ensures
        reader_run(reads, buffer_len) == (read_packets(reads), read_fails(reads)),
        reads_fit(reads, buffer_len),
    decreases reads.len(),
{
    if reads.len() > 0 {
        let rest = reads.drop_first();
        assert forall|i: int| 0 <= i < rest.len() implies (#[trigger] rest[i] matches QueueRead::Read(n) ==> n <= MTU) by {
            assert(rest[i] == reads[i + 1]);
        }
        let r0 = reads[0];
        match reader_decision(r0, buffer_len) {
            ReaderAction::Deliver { packet_len, buffer_len: next } => {
                lemma_reader_run(rest, next);
            },
            ReaderAction::Continue => {
                lemma_reader_run(rest, buffer_len);
            },
            ReaderAction::Stop => {},
        }
    }
}

/// The flag word of a Linux interface creation asks for exactly what was
/// requested: it always holds `IFF_NO_PI` (0x1000); it holds `IFF_TAP` (0x2)
/// and not `IFF_TUN` (0x1) exactly for a tap, `IFF_TUN` and not `IFF_TAP`
/// exactly for a tun, whatever the number of queues; and it holds
/// `IFF_MULTI_QUEUE` (0x100) exactly where there is more than one queue. The
/// `TUNSETIFF` request of every queue carries that word.
pub proof fn lemma_linux_flags(
    r: Result<(LinuxCreation, LinuxAction), TunTapError>,
    name: Option<&str>,
    t: VirtualInterfaceType,
    is_async: bool,
    queues: usize,
)
    requires
        linux_start_matches(r, name, t, is_async, queues),
        r is Ok,
    ensures
        ({
            let b = r->Ok_0.0.flags.bits;
            &&& b & 0x1000 == 0x1000
            &&& (b & 0x2 == 0x2) == (t == VirtualInterfaceType::Tap)
            &&& (b & 0x1 == 0x1) == (t == VirtualInterfaceType::Tun)
            &&& (b & 0x100 == 0x100) == (queues > 1)
        }),
        forall|st: LinuxCreationView|
            #![trigger linux_step(st, LinuxEvent::DeviceOpened(Ok(())))]
            st.flags == r->Ok_0.0.flags ==> (linux_step(st, LinuxEvent::DeviceOpened(Ok(()))).1 matches LinuxActionView::SetInterface(
                _,
                f,
                _,
                _,
                _,
            ) ==> f == r->Ok_0.0.flags.bits),
{
    let b = r->Ok_0.0.flags.bits;
    assert(queues >= 1);
    assert(b == linux_flags(t, queues));
    assert(0x1001i16 & 0x1000 == 0x1000 && 0x1001i16 & 0x2 != 0x2 && 0x1001i16 & 0x1 == 0x1
        && 0x1001i16 & 0x100 != 0x100) by (bit_vector);
    assert(0x1002i16 & 0x1000 == 0x1000 && 0x1002i16 & 0x2 == 0x2 && 0x1002i16 & 0x1 != 0x1
        && 0x1002i16 & 0x100 != 0x100) by (bit_vector);
    assert(0x1101i16 & 0x1000 == 0x1000 && 0x1101i16 & 0x2 != 0x2 && 0x1101i16 & 0x1 == 0x1
        && 0x1101i16 & 0x100 == 0x100) by (bit_vector);
    assert(0x1102i16 & 0x1000 == 0x1000 && 0x1102i16 & 0x2 == 0x2 && 0x1102i16 & 0x1 != 0x1
        && 0x1102i16 & 0x100 == 0x100) by (bit_vector);
    assert((0x1000i16 | 0x0001i16) == 0x1001i16 && (0x1000i16 | 0x0002i16) == 0x1002i16
        && (0x1001i16 | 0x0100i16) == 0x1101i16 && (0x1002i16 | 0x0100i16) == 0x1102i16)
        by (bit_vector);
}

/// The file that an interface creation opens is the file whose existence it
/// has just checked, `/dev/<driver><unit>`, for a single unit as for a scan;
/// the interface it brings up and names is `<driver><unit>` of that same
/// unit; and a scan that finds a unit busy checks the next unit's file.
pub proof fn lemma_open_is_the_checked_file(s: DeviceCreation, e: CreateEvent)
    ensures
        create_step(s, CreateEvent::PathChecked(true)).1 == CreateActionView::Open(
            "/dev/"@ + s.dev_name@ + decimal(s.idx as nat),
        ),
        create_step(s, CreateEvent::Opened(Ok(()))).1 == CreateActionView::BringUp(
            s.dev_name@ + decimal(s.idx as nat),
        ),
        create_step(s, CreateEvent::BroughtUp(Ok(()))).1 == CreateActionView::Finish(
            Ok((s.dev_name@ + decimal(s.idx as nat), s.iface_type)),
        ),
        create_step(s, e).1 matches CreateActionView::CheckPath(p) ==> {
            let next = create_step(s, e).0;
            &&& next.idx == s.idx + 1
            &&& p == "/dev/"@ + s.dev_name@ + decimal(next.idx as nat)
            &&& create_step(next, CreateEvent::PathChecked(true)).1 == CreateActionView::Open(p)
        },
{
}

/// The first file that a creation checks is that of the unit asked for, or of
/// unit 0 in a scan, and it is the file that it then opens.
pub proof fn lemma_start_checks_the_opened_file(d: DevPath, t: VirtualInterfaceType, dev_idx: Option<usize>)
    ensures
        create_start(d, t, dev_idx).1 matches CreateActionView::CheckPath(p) ==> {
            let unit: nat = match dev_idx {
                Some(i) => i as nat,
                None => 0,
            };
            &&& p == "/dev/"@ + d.dev_name@ + decimal(unit)
            &&& create_step(create_start(d, t, dev_idx).0, CreateEvent::PathChecked(true)).1
                == CreateActionView::Open(p)
        },
{
}

} // verus!
