//! Interface control: its errors, the flag changes that bring an interface up
//! or down, the interface list built from the system's address list, and the
//! classification of each interface's link.
use crate::brcmd::{BRDGADD, BRDGDEL};
use crate::flags::IfFlags;
use crate::ifname::{decimal, decimal_string, IfNameError};
use crate::ifstructs::{
    fresh_name, from_name_outcome, ifaliasreq, ifbreq, ifbreq_rest_zero, ifdrv, ifreq, zeros,
    SockAddrBytes, IFBREQ_SIZE, SOCKADDR_SIZE,
};
use vstd::prelude::*;
use vstd::utf8::encode_utf8_decode_utf8;

verus! {

broadcast use vstd::string::group_string_axioms;

/// `ENXIO`, "no such device or address": what an interface request on an
/// unknown interface fails with.
pub const ENXIO: i32 = 6;

/// An error of a system call as the `nix` crate reports it.
#[derive(Debug, Clone, Copy, PartialEq, Eq, Structural)]
pub enum NixError {
    Sys { errno: i32 },
    InvalidPath,
    InvalidUtf8,
    UnsupportedOperation,
}

/// An I/O error: its OS error code where it has one, and its text.
#[derive(Debug, Clone)]
pub struct IoError {
    pub raw_os_error: Option<i32>,
    pub message: String,
}

impl View for IoError {
    /// The OS error code and the text.
    type V = (Option<i32>, Seq<char>);

    open spec fn view(&self) -> (Option<i32>, Seq<char>) {
        (self.raw_os_error, self.message@)
    }
}

/// Interface control error.
#[derive(Debug, Clone)]
pub enum IfError {
    Nix(NixError),
    Io(IoError),
    /// Iface not found.
    NotFound,
}

/// The error of a failed interface request: "no such device" means that the
/// interface does not exist.
pub fn ioctl_error(e: NixError) -> (r: IfError)
    ensures
        e == (NixError::Sys { errno: ENXIO }) ==> r is NotFound,
        e != (NixError::Sys { errno: ENXIO }) ==> r == IfError::Nix(e),
{
    match e {
        NixError::Sys { errno } => {
            if errno == ENXIO {
                IfError::NotFound
            } else {
                IfError::Nix(e)
            }
        },
        _ => IfError::Nix(e),
    }
}

/// The link kind of an interface.
#[derive(Debug, Clone, Copy, PartialEq, Eq, Structural)]
pub enum Link {
    Regular,
    Tun,
    Tap,
    Bridge,
    Loopback,
    Ethernet,
}

/// `IFF_UP | IFF_RUNNING`.
pub const UP_RUNNING: i32 = 0x41;

/// Whether the flags say that the interface is up: both up and running.
pub open spec fn flags_up(flags: IfFlags) -> bool {
    flags.bits & 0x1 == 0x1 && flags.bits & 0x40 == 0x40
}

/// Whether an interface with these flags is up (up and running).
pub fn is_up(flags: IfFlags) -> (r: bool)
    ensures
        r == flags_up(flags),
{
    flags.contains(IfFlags::IFF_UP()) && flags.contains(IfFlags::IFF_RUNNING())
}

/// The flags with up and running set.
pub fn up_flags(flags: IfFlags) -> (r: IfFlags)
    ensures
        r.bits == (flags.bits | 0x1) | 0x40,
{
    let mut f = flags;
    f.insert(IfFlags::IFF_UP());
    f.insert(IfFlags::IFF_RUNNING());
    f
}

/// The flags with up and running cleared.
pub fn down_flags(flags: IfFlags) -> (r: IfFlags)
    ensures
        r.bits == (flags.bits & !0x1i32) & !0x40i32,
{
    let mut f = flags;
    f.remove(IfFlags::IFF_UP());
    f.remove(IfFlags::IFF_RUNNING());
    f
}

/// The flags with promiscuous mode set where `is_enable` holds, cleared otherwise.
pub fn promiscuous_flags(flags: IfFlags, is_enable: bool) -> (r: IfFlags)
    ensures
        is_enable ==> r.bits == flags.bits | 0x100,
        !is_enable ==> r.bits == flags.bits & !0x100i32,
{
    let mut f = flags;
    f.set(IfFlags::IFF_PROMISC(), is_enable);
    f
}

/// Bringing flags up gives flags that are up; bringing them down gives flags
/// that are not; each leaves every other flag as it was, and each is
/// idempotent.
pub proof fn lemma_up_down(flags: IfFlags)
    ensures
        flags_up(IfFlags { bits: (flags.bits | 0x1) | 0x40 }),
        !flags_up(IfFlags { bits: (flags.bits & !0x1i32) & !0x40i32 }),
        ((flags.bits | 0x1) | 0x40) & !UP_RUNNING == flags.bits & !UP_RUNNING,
        ((flags.bits & !0x1i32) & !0x40i32) & !UP_RUNNING == flags.bits & !UP_RUNNING,
        flags_up(flags) ==> (flags.bits | 0x1) | 0x40 == flags.bits,
        !(flags.bits & 0x1 == 0x1) && !(flags.bits & 0x40 == 0x40) ==> (flags.bits & !0x1i32)
            & !0x40i32 == flags.bits,
{
    let b = flags.bits;
    assert(((b | 0x1) | 0x40) & 0x1 == 0x1 && ((b | 0x1) | 0x40) & 0x40 == 0x40) by (bit_vector);
    assert(((b & !0x1i32) & !0x40i32) & 0x1 == 0) by (bit_vector);
    assert(((b | 0x1) | 0x40) & !0x41i32 == b & !0x41i32) by (bit_vector);
    assert(((b & !0x1i32) & !0x40i32) & !0x41i32 == b & !0x41i32) by (bit_vector);
    assert((b & 0x1 == 0x1 && b & 0x40 == 0x40) ==> (b | 0x1) | 0x40 == b) by (bit_vector);
    assert((b & 0x1 != 0x1 && b & 0x40 != 0x40) ==> (b & !0x1i32) & !0x40i32 == b)
        by (bit_vector);
}

/// What a flag change does next on the interface.
#[derive(Debug, Clone, Copy, PartialEq, Eq, Structural)]
pub enum FlagAction {
    /// Read the interface's flags (`SIOCGIFFLAGS`) and report them.
    ReadFlags,
    /// Write these flags (`SIOCSIFFLAGS`) and report success.
    WriteFlags(IfFlags),
    /// Nothing more to do.
    Done,
}

/// The change that a flag request makes.
#[derive(Debug, Clone, Copy, PartialEq, Eq, Structural)]
pub enum FlagGoal {
    Up,
    Down,
    Promiscuous(bool),
}

/// A flag change in progress: bring an interface up, bring it down, or set its
/// promiscuous mode. Bringing up (down) first reads the flags and stops where
/// the interface is already up (not up); otherwise it reads the flags again
/// and writes them changed.
#[derive(Debug, Clone, Copy, PartialEq, Eq, Structural)]
pub struct FlagChange {
    pub goal: FlagGoal,
    /// How many flag words were read so far.
    pub reads: u8,
    pub finished: bool,
}

/// The action after reading `flags` in the state `c`, and the next state.
pub open spec fn flag_step(c: FlagChange, flags: IfFlags) -> (FlagChange, FlagAction) {
    match c.goal {
        FlagGoal::Up => if c.reads == 0 {
            if flags_up(flags) {
                (FlagChange { reads: 1, finished: true, ..c }, FlagAction::Done)
            } else {
                (FlagChange { reads: 1, ..c }, FlagAction::ReadFlags)
            }
        } else {
            (
                FlagChange { reads: 2, finished: true, ..c },
                FlagAction::WriteFlags(IfFlags { bits: (flags.bits | 0x1) | 0x40 }),
            )
        },
        FlagGoal::Down => if c.reads == 0 {
            if !flags_up(flags) {
                (FlagChange { reads: 1, finished: true, ..c }, FlagAction::Done)
            } else {
                (FlagChange { reads: 1, ..c }, FlagAction::ReadFlags)
            }
        } else {
            (
                FlagChange { reads: 2, finished: true, ..c },
                FlagAction::WriteFlags(IfFlags { bits: (flags.bits & !0x1i32) & !0x40i32 }),
            )
        },
        FlagGoal::Promiscuous(enable) => (
            FlagChange { reads: 1, finished: true, ..c },
            FlagAction::WriteFlags(
                IfFlags {
                    bits: if enable {
                        flags.bits | 0x100
                    } else {
                        flags.bits & !0x100i32
                    },
                },
            ),
        ),
    }
}

impl FlagChange {
    /// A change that brings the interface up.
    pub fn up() -> (r: FlagChange)
        ensures
            r == (FlagChange { goal: FlagGoal::Up, reads: 0, finished: false }),
    {
        FlagChange { goal: FlagGoal::Up, reads: 0, finished: false }
    }

    /// A change that brings the interface down.
    pub fn down() -> (r: FlagChange)
        ensures
            r == (FlagChange { goal: FlagGoal::Down, reads: 0, finished: false }),
    {
        FlagChange { goal: FlagGoal::Down, reads: 0, finished: false }
    }

    /// A change that sets promiscuous mode on (`is_enable`) or off.
    pub fn promiscuous(is_enable: bool) -> (r: FlagChange)
        ensures
            r == (FlagChange { goal: FlagGoal::Promiscuous(is_enable), reads: 0, finished: false }),
    {
        FlagChange { goal: FlagGoal::Promiscuous(is_enable), reads: 0, finished: false }
    }

    /// The first action: every change starts by reading the flags.
    pub fn start(&self) -> (r: FlagAction)
        ensures
            r == FlagAction::ReadFlags,
    {
        FlagAction::ReadFlags
    }

    /// Takes the flags just read; returns what to do next. After a
    /// `WriteFlags` the change is finished once the write succeeded.
    pub fn flags_read(&mut self, flags: IfFlags) -> (r: FlagAction)
        requires
            !old(self).finished,
            old(self).reads < 2,
        ensures
            (*final(self), r) == flag_step(*old(self), flags),
    {
        match self.goal {
            FlagGoal::Up => {
                if self.reads == 0 {
                    self.reads = 1;
                    if is_up(flags) {
                        self.finished = true;
                        FlagAction::Done
                    } else {
                        FlagAction::ReadFlags
                    }
                } else {
                    self.reads = 2;
                    self.finished = true;
                    FlagAction::WriteFlags(up_flags(flags))
                }
            },
            FlagGoal::Down => {
                if self.reads == 0 {
                    self.reads = 1;
                    if !is_up(flags) {
                        self.finished = true;
                        FlagAction::Done
                    } else {
                        FlagAction::ReadFlags
                    }
                } else {
                    self.reads = 2;
                    self.finished = true;
                    FlagAction::WriteFlags(down_flags(flags))
                }
            },
            FlagGoal::Promiscuous(enable) => {
                self.reads = 1;
                self.finished = true;
                FlagAction::WriteFlags(promiscuous_flags(flags, enable))
            },
        }
    }
}

/// A flag change does what it is for: bringing up writes flags that are up,
/// and stops without writing only where the flags read are up; bringing down
/// writes flags that are not up, and stops only where they are not up; a
/// promiscuous change writes the flags read with only the promiscuous flag
/// changed, set or cleared as asked.
pub proof fn lemma_flag_change_effect(c: FlagChange, flags: IfFlags)
    requires
        !c.finished,
        c.reads < 2,
    ensures
        c.goal == FlagGoal::Up ==> match flag_step(c, flags).1 {
            FlagAction::WriteFlags(g) => flags_up(g),
            FlagAction::Done => flags_up(flags),
            FlagAction::ReadFlags => !flags_up(flags) && c.reads == 0,
        },
        c.goal == FlagGoal::Down ==> match flag_step(c, flags).1 {
            FlagAction::WriteFlags(g) => !flags_up(g),
            FlagAction::Done => !flags_up(flags),
            FlagAction::ReadFlags => flags_up(flags) && c.reads == 0,
        },
        c.goal matches FlagGoal::Promiscuous(enable) ==> flag_step(c, flags).1 matches FlagAction::WriteFlags(g)
            && (g.bits & 0x100 == 0x100) == enable && g.bits & !0x100i32 == flags.bits & !0x100i32,
{
    lemma_up_down(flags);
    let b = flags.bits;
    assert((b | 0x100) & 0x100 == 0x100 && (b | 0x100) & !0x100i32 == b & !0x100i32) by (bit_vector);
    assert((b & !0x100i32) & 0x100 == 0 && (b & !0x100i32) & !0x100i32 == b & !0x100i32) by (bit_vector);
}

/// An IP address.
#[derive(Debug, Clone, Copy)]
pub enum IpAddress {
    V4([u8; 4]),
    V6([u8; 16]),
}

/// A hardware (MAC) address.
pub type MacBytes = [u8; 6];

/// The address of an entry of the system's interface address list.
#[derive(Debug, Clone, Copy)]
pub enum IfAddrKind {
    /// An IPv4 or IPv6 address.
    Inet(IpAddress),
    /// A link-layer address.
    Link(MacBytes),
    /// An address of another family.
    Other,
}

/// An entry of the system's interface address list (`getifaddrs`).
#[derive(Debug, Clone)]
pub struct IfAddrEntry {
    pub interface_name: String,
    pub flags: IfFlags,
    pub address: Option<IfAddrKind>,
}

/// An interface as the address list describes it.
#[derive(Debug, Clone)]
pub struct IfaceSummary {
    pub ifname: String,
    pub ip_addrs: Vec<IpAddress>,
    pub hw_addr: Option<MacBytes>,
    pub flags: IfFlags,
}

/// The flags of the last entry of `e` for the interface `n`.
pub open spec fn last_flags(e: Seq<IfAddrEntry>, n: Seq<char>) -> Option<IfFlags>
    decreases e.len(),
{
    if e.len() == 0 {
        None
    } else if e.last().interface_name@ == n {
        Some(e.last().flags)
    } else {
        last_flags(e.drop_last(), n)
    }
}

/// The IP addresses of the entries of `e` for the interface `n`, in order.
pub open spec fn inet_addrs(e: Seq<IfAddrEntry>, n: Seq<char>) -> Seq<IpAddress>
    decreases e.len(),
{
    if e.len() == 0 {
        Seq::empty()
    } else {
        let rest = inet_addrs(e.drop_last(), n);
        if e.last().interface_name@ == n {
            match e.last().address {
                Some(IfAddrKind::Inet(a)) => rest.push(a),
                _ => rest,
            }
        } else {
            rest
        }
    }
}

/// The hardware address of the interface `n`: that of its last link-layer
/// entry, unless it is all zeros.
pub open spec fn hw_addr_of(e: Seq<IfAddrEntry>, n: Seq<char>) -> Option<MacBytes>
    decreases e.len(),
{
    if e.len() == 0 {
        None
    } else if e.last().interface_name@ == n && e.last().address is Some && e.last().address.unwrap() is Link {
        let m = e.last().address.unwrap()->Link_0;
        if m@ == seq![0u8, 0u8, 0u8, 0u8, 0u8, 0u8] {
            None
        } else {
            Some(m)
        }
    } else {
        hw_addr_of(e.drop_last(), n)
    }
}

/// Whether some entry of `e` names the interface `n`.
pub open spec fn names_iface(e: Seq<IfAddrEntry>, n: Seq<char>) -> bool {
    exists|j: int| 0 <= j < e.len() && e[j].interface_name@ == n
}

/// Whether `s` describes the interface `s.ifname` as the entries `e` do.
pub open spec fn summary_of(s: IfaceSummary, e: Seq<IfAddrEntry>) -> bool {
    &&& last_flags(e, s.ifname@) == Some(s.flags)
    &&& s.ip_addrs@ == inet_addrs(e, s.ifname@)
    &&& s.hw_addr == hw_addr_of(e, s.ifname@)
}

/// Whether `r` lists each interface that `e` names exactly once, described as
/// `e` describes it.
pub open spec fn summaries_of(r: Seq<IfaceSummary>, e: Seq<IfAddrEntry>) -> bool {
    &&& forall|k: int| 0 <= k < r.len() ==> #[trigger] summary_of(r[k], e)
    &&& forall|k: int, l: int| 0 <= k < l < r.len() ==> r[k].ifname@ != r[l].ifname@
    &&& forall|j: int|
        0 <= j < e.len() ==> exists|k: int|
            0 <= k < r.len() && r[k].ifname@ == (#[trigger] e[j]).interface_name@
}

/// The interfaces that the address list `entries` describes, each once: for
/// each, the flags of its last entry, its IP addresses in order, and its last
/// hardware address unless that is all zeros. The order of the interfaces is
/// not part of the contract.
pub fn collect_ifaces(entries: &Vec<IfAddrEntry>) -> (r: Vec<IfaceSummary>)
    ensures
        summaries_of(r@, entries@),
{
    let mut out: Vec<IfaceSummary> = Vec::new();
    let mut i: usize = 0;
    while i < entries.len()
        invariant
            i <= entries@.len(),
            summaries_of(out@, entries@.take(i as int)),
        decreases entries@.len() - i,
    {
        let ghost pre = entries@.take(i as int);
        let ghost post = entries@.take(i + 1);
        assert(post.drop_last() =~= pre);
        assert(post.last() == entries@[i as int]);
        let entry = &entries[i];
        let mut k: usize = 0;
        while k < out.len() && !(out[k].ifname == entry.interface_name)
            invariant
                k <= out@.len(),
                forall|m: int| 0 <= m < k ==> out@[m].ifname@ != entry.interface_name@,
            decreases out@.len() - k,
        {
            k = k + 1;
        }
        let ghost n = entry.interface_name@;
        let ghost old_out = out@;
        if k == out.len() {
            let mut ips: Vec<IpAddress> = Vec::new();
            let mut hw: Option<MacBytes> = None;
            match entry.address {
                Some(IfAddrKind::Inet(a)) => {
                    ips.push(a);
                },
                Some(IfAddrKind::Link(m)) => {
                    if !(m[0] == 0 && m[1] == 0 && m[2] == 0 && m[3] == 0 && m[4] == 0 && m[5]
                        == 0) {
                        hw = Some(m);
                    } else {
                        assert(m@ =~= seq![0u8, 0u8, 0u8, 0u8, 0u8, 0u8]);
                    }
                },
                _ => {},
            }
            proof {
                assert forall|j: int| 0 <= j < pre.len() implies pre[j].interface_name@ != n by {
                    if pre[j].interface_name@ == n {
                        let kk = choose|kk: int|
                            0 <= kk < old_out.len() && old_out[kk].ifname@ == (
                            #[trigger] pre[j]).interface_name@;
                        assert(old_out[kk].ifname@ != n);
                    }
                }
                lemma_absent(pre, n);
                assert(ips@ == inet_addrs(post, n));
                assert(hw == hw_addr_of(post, n));
            }
            out.push(
                IfaceSummary {
                    ifname: entry.interface_name.clone(),
                    ip_addrs: ips,
                    hw_addr: hw,
                    flags: entry.flags,
                },
            );
        } else {
            let mut s = IfaceSummary {
                ifname: out[k].ifname.clone(),
                ip_addrs: out[k].ip_addrs.clone(),
                hw_addr: out[k].hw_addr,
                flags: entry.flags,
            };
            assert(s.ip_addrs@ =~= old_out[k as int].ip_addrs@);
            assert(summary_of(old_out[k as int], pre));
            assert(old_out[k as int].ifname@ == n);
            match entry.address {
                Some(IfAddrKind::Inet(a)) => {
                    s.ip_addrs.push(a);
                },
                Some(IfAddrKind::Link(m)) => {
                    if !(m[0] == 0 && m[1] == 0 && m[2] == 0 && m[3] == 0 && m[4] == 0 && m[5]
                        == 0) {
                        s.hw_addr = Some(m);
                    } else {
                        assert(m@ =~= seq![0u8, 0u8, 0u8, 0u8, 0u8, 0u8]);
                        s.hw_addr = None;
                    }
                },
                _ => {},
            }
            assert(s.ip_addrs@ == inet_addrs(post, n));
            assert(s.hw_addr == hw_addr_of(post, n));
            out.set(k, s);
        }
        proof {
            assert forall|m: int| 0 <= m < out@.len() implies #[trigger] summary_of(
                out@[m],
                post,
            ) by {
                if out@[m].ifname@ != n {
                    assert(out@[m] == old_out[m]);
                    assert(summary_of(old_out[m], pre));
                } else {
                    assert(last_flags(post, n) == Some(entries@[i as int].flags));
                    assert(out@[m].flags == entries@[i as int].flags);
                    assert(out@[m].ip_addrs@ == inet_addrs(post, n));
                    assert(out@[m].hw_addr == hw_addr_of(post, n));
                }
            }
            assert forall|j: int| 0 <= j < post.len() implies exists|m: int|
                0 <= m < out@.len() && out@[m].ifname@ == (#[trigger] post[j]).interface_name@ by {
                if j < pre.len() {
                    assert(post[j] == pre[j]);
                    let m = choose|m: int|
                        0 <= m < old_out.len() && old_out[m].ifname@ == (
                        #[trigger] pre[j]).interface_name@;
                    assert(out@[m].ifname@ == old_out[m].ifname@);
                } else {
                    assert(out@[k as int].ifname@ == n);
                }
            }
        }
        i = i + 1;
    }
    assert(entries@.take(entries@.len() as int) =~= entries@);
    out
}

/// An interface that no entry names has no flags, no addresses and no
/// hardware address.
proof fn lemma_absent(e: Seq<IfAddrEntry>, n: Seq<char>)
    requires
        forall|j: int| 0 <= j < e.len() ==> e[j].interface_name@ != n,
    ensures
        last_flags(e, n) is None,
        inet_addrs(e, n) == Seq::<IpAddress>::empty(),
        hw_addr_of(e, n) is None,
    decreases e.len(),
{
    if e.len() > 0 {
        assert(e.last() == e[e.len() - 1]);
        assert forall|j: int| 0 <= j < e.drop_last().len() implies e.drop_last()[j].interface_name@
            != n by {
            assert(e.drop_last()[j] == e[j]);
        }
        lemma_absent(e.drop_last(), n);
    }
}

/// Where the first interface called `name` stands in `ifaces`; `NotFound`
/// where none is.
pub fn find_by_name(ifaces: &Vec<IfaceSummary>, name: &String) -> (r: Result<usize, IfError>)
    ensures
        r matches Ok(k) ==> k < ifaces@.len() && ifaces@[k as int].ifname@ == name@ && forall|
            m: int,
        | 0 <= m < k ==> ifaces@[m].ifname@ != name@,
        r is Err ==> (r matches Err(IfError::NotFound)),
        r is Err ==> forall|m: int| 0 <= m < ifaces@.len() ==> ifaces@[m].ifname@ != name@,
{
    let mut k: usize = 0;
    while k < ifaces.len()
        invariant
            k <= ifaces@.len(),
            forall|m: int| 0 <= m < k ==> ifaces@[m].ifname@ != name@,
        decreases ifaces@.len() - k,
    {
        if ifaces[k].ifname == *name {
            return Ok(k);
        }
        k = k + 1;
    }
    Err(IfError::NotFound)
}

/// A question whose answer decides an interface's link kind.
#[derive(Debug, Clone, Copy, PartialEq, Eq, Structural)]
pub enum LinkProbe {
    Bridge,
    Tap,
    Tun,
}

/// What to do next to classify a link.
#[derive(Debug, Clone, Copy, PartialEq, Eq, Structural)]
pub enum LinkStep {
    /// Ask this question and call again with its answer appended.
    Probe(LinkProbe),
    /// The link kind.
    Decided(Link),
}

/// The link kind of an interface: a loopback interface is `Loopback`;
/// otherwise it is asked in turn whether it is a bridge, a tap and a tun, and
/// the first yes decides; with three noes it is `Ethernet`.
pub open spec fn link_step_spec(loopback: bool, answers: Seq<bool>) -> LinkStep {
    if loopback {
        LinkStep::Decided(Link::Loopback)
    } else if answers.len() == 0 {
        LinkStep::Probe(LinkProbe::Bridge)
    } else if answers[0] {
        LinkStep::Decided(Link::Bridge)
    } else if answers.len() == 1 {
        LinkStep::Probe(LinkProbe::Tap)
    } else if answers[1] {
        LinkStep::Decided(Link::Tap)
    } else if answers.len() == 2 {
        LinkStep::Probe(LinkProbe::Tun)
    } else if answers[2] {
        LinkStep::Decided(Link::Tun)
    } else {
        LinkStep::Decided(Link::Ethernet)
    }
}

/// Given the interface's flags and the answers so far, the next question or
/// the link kind.
pub fn link_step(flags: IfFlags, answers: &[bool]) -> (r: LinkStep)
    requires
        answers@.len() <= 3,
    ensures
        r == link_step_spec(flags.bits & 0x8 == 0x8, answers@),
{
    if flags.contains(IfFlags::IFF_LOOPBACK()) {
        LinkStep::Decided(Link::Loopback)
    } else if answers.len() == 0 {
        LinkStep::Probe(LinkProbe::Bridge)
    } else if answers[0] {
        LinkStep::Decided(Link::Bridge)
    } else if answers.len() == 1 {
        LinkStep::Probe(LinkProbe::Tap)
    } else if answers[1] {
        LinkStep::Decided(Link::Tap)
    } else if answers.len() == 2 {
        LinkStep::Probe(LinkProbe::Tun)
    } else if answers[2] {
        LinkStep::Decided(Link::Tun)
    } else {
        LinkStep::Decided(Link::Ethernet)
    }
}

/// Whether two strings are equal.
pub fn str_eq(a: &str, b: &str) -> (r: bool)
    ensures
        r == (a@ == b@),
{
    let x = a.as_bytes();
    let y = b.as_bytes();
    proof {
        encode_utf8_decode_utf8(a@);
        encode_utf8_decode_utf8(b@);
    }
    if x.len() != y.len() {
        return false;
    }
    let mut i: usize = 0;
    while i < x.len()
        invariant
            a@ == b@ ==> x@ == y@,
            x@.len() == y@.len(),
            i <= x@.len(),
            forall|j: int| 0 <= j < i ==> x@[j] == y@[j],
        decreases x@.len() - i,
    {
        if x[i] != y[i] {
            return false;
        }
        i = i + 1;
    }
    assert(x@ =~= y@);
    true
}

/// The interface group that answers a question on FreeBSD.
pub fn probe_group(p: LinkProbe) -> (r: &'static str)
    ensures
        p == LinkProbe::Bridge ==> r@ == "bridge"@,
        p == LinkProbe::Tap ==> r@ == "tap"@,
        p == LinkProbe::Tun ==> r@ == "tun"@,
{
    match p {
        LinkProbe::Bridge => "bridge",
        LinkProbe::Tap => "tap",
        LinkProbe::Tun => "tun",
    }
}

/// Whether the interface belongs to the group `group` (FreeBSD).
pub fn has_group(groups: &Vec<String>, group: &str) -> (r: bool)
    ensures
        r == exists|k: int| 0 <= k < groups@.len() && groups@[k]@ == group@,
{
    let mut k: usize = 0;
    while k < groups.len()
        invariant
            k <= groups@.len(),
            forall|m: int| 0 <= m < k ==> groups@[m]@ != group@,
        decreases groups@.len() - k,
    {
        if str_eq(groups[k].as_str(), group) {
            return true;
        }
        k = k + 1;
    }
    false
}

/// The answer to a question from the interface's driver name and bus
/// (Linux `ethtool` driver information): a bridge is driven by `bridge`; a tun
/// and a tap are driven by `tun`, on the bus `tun` or `tap`.
pub fn probe_driver(p: LinkProbe, driver: &str, bus_info: &str) -> (r: bool)
    ensures
        p == LinkProbe::Bridge ==> r == (driver@ == "bridge"@),
        p == LinkProbe::Tun ==> r == (driver@ == "tun"@ && bus_info@ == "tun"@),
        p == LinkProbe::Tap ==> r == (driver@ == "tun"@ && bus_info@ == "tap"@),
{
    match p {
        LinkProbe::Bridge => str_eq(driver, "bridge"),
        LinkProbe::Tun => str_eq(driver, "tun") && str_eq(bus_info, "tun"),
        LinkProbe::Tap => str_eq(driver, "tun") && str_eq(bus_info, "tap"),
    }
}

/// The error that a name that cannot be stored in a request turns into: an
/// I/O error with no OS code.
pub open spec fn name_io_error(e: IfNameError) -> (Option<i32>, Seq<char>) {
    match e {
        IfNameError::Malformed => (None, "malformed interface name"@),
        IfNameError::TooLong { len, max } => (
            None,
            "name too long: "@ + decimal(len as nat) + " while max is "@ + decimal(max as nat),
        ),
    }
}

/// The I/O error that a name that cannot be stored in a request turns into.
pub fn name_io_failure(e: IfNameError) -> (r: IoError)
    ensures
        r@ == name_io_error(e),
{
    match e {
        IfNameError::Malformed => IoError {
            raw_os_error: None,
            message: "malformed interface name".to_owned(),
        },
        IfNameError::TooLong { len, max } => {
            let mut message = "name too long: ".to_owned();
            let l = decimal_string(len);
            message.append(l.as_str());
            message.append(" while max is ");
            let m = decimal_string(max);
            message.append(m.as_str());
            IoError { raw_os_error: None, message }
        },
    }
}

/// An interface name that cannot be stored in a request, as an error.
pub fn name_error(e: IfNameError) -> (r: IfError)
    ensures
        r matches IfError::Io(io) && io@ == name_io_error(e),
{
    IfError::Io(name_io_failure(e))
}

/// The request that adds the interface of index `iface_index` to the Linux
/// bridge `bridge_ifname` (`SIOCBRADDIF`), or removes it (`SIOCBRDELIF`).
pub fn bridge_port_request(bridge_ifname: &str, iface_index: i32) -> (r: Result<ifreq, IfError>)
    ensures
        r is Ok <==> from_name_outcome(bridge_ifname) is Ok,
        r matches Err(e) ==> e matches IfError::Io(io) && (io.raw_os_error, io.message@)
            == name_io_error(from_name_outcome(bridge_ifname)->Err_0),
        r matches Ok(req) ==> req.ifr_name@ == fresh_name(bridge_ifname) && req.ifr_ifindex
            == iface_index && req.ifr_flags == 0 && req.ifr_addr@ == zeros(SOCKADDR_SIZE as nat),
{
    match ifreq::from_name(bridge_ifname) {
        Ok(mut req) => {
            req.set_iface_index(iface_index);
            Ok(req)
        },
        Err(e) => Err(name_error(e)),
    }
}

/// The driver request that adds (`BRDGADD`) or removes (`BRDGDEL`) the
/// interface `iface_ifname` to or from the FreeBSD bridge `bridge_ifname`,
/// with the member request it points to.
pub fn bridge_member_request(bridge_ifname: &str, iface_ifname: &str, add: bool) -> (r: Result<
    (ifdrv, ifbreq),
    IfError,
>)
    ensures
        r is Ok <==> from_name_outcome(bridge_ifname) is Ok && from_name_outcome(iface_ifname) is Ok,
        r matches Err(e) ==> e matches IfError::Io(io) && (io.raw_os_error, io.message@)
            == name_io_error(
            if from_name_outcome(bridge_ifname) is Err {
                from_name_outcome(bridge_ifname)->Err_0
            } else {
                from_name_outcome(iface_ifname)->Err_0
            },
        ),
        r matches Ok((drv, member)) ==> {
            &&& drv.ifd_name@ == fresh_name(bridge_ifname)
            &&& drv.ifd_cmd == if add {
                BRDGADD
            } else {
                BRDGDEL
            }
            &&& drv.ifd_len == IFBREQ_SIZE
            &&& member.ifbr_ifsname@ == fresh_name(iface_ifname)
            &&& ifbreq_rest_zero(member)
        },
{
    let mut ifd = match ifdrv::from_name(bridge_ifname) {
        Ok(d) => d,
        Err(e) => {
            return Err(name_error(e));
        },
    };
    let b_req = match ifbreq::from_name(iface_ifname) {
        Ok(b) => b,
        Err(e) => {
            return Err(name_error(e));
        },
    };
    ifd.ifd_len = IFBREQ_SIZE;
    ifd.ifd_cmd = if add {
        BRDGADD
    } else {
        BRDGDEL
    };
    Ok((ifd, b_req))
}

/// The request that adds the address `addr`, with its broadcast address and
/// mask, to the interface `ifname` (`SIOCAIFADDR`).
pub fn alias_request(
    ifname: &str,
    addr: SockAddrBytes,
    broadaddr: SockAddrBytes,
    mask: SockAddrBytes,
) -> (r: Result<ifaliasreq, IfError>)
    ensures
        r is Ok <==> from_name_outcome(ifname) is Ok,
        r matches Err(e) ==> e matches IfError::Io(io) && (io.raw_os_error, io.message@)
            == name_io_error(from_name_outcome(ifname)->Err_0),
        r matches Ok(req) ==> req.ifra_name@ == fresh_name(ifname) && req.ifra_addr == addr
            && req.ifra_broadaddr == broadaddr && req.ifra_mask == mask,
{
    match ifaliasreq::from_name(ifname) {
        Ok(mut req) => {
            req.ifra_addr = addr;
            req.ifra_broadaddr = broadaddr;
            req.ifra_mask = mask;
            Ok(req)
        },
        Err(e) => Err(name_error(e)),
    }
}

/// The request that removes the address `addr` from the interface `ifname`
/// (`SIOCDIFADDR`).
pub fn address_request(ifname: &str, addr: SockAddrBytes) -> (r: Result<ifreq, IfError>)
    ensures
        r is Ok <==> from_name_outcome(ifname) is Ok,
        r matches Err(e) ==> e matches IfError::Io(io) && (io.raw_os_error, io.message@)
            == name_io_error(from_name_outcome(ifname)->Err_0),
        r matches Ok(req) ==> req.ifr_name@ == fresh_name(ifname) && req.ifr_addr == addr
            && req.ifr_flags == 0 && req.ifr_ifindex == 0,
{
    match ifreq::from_name(ifname) {
        Ok(mut req) => {
            req.set_addr(addr);
            Ok(req)
        },
        Err(e) => Err(name_error(e)),
    }
}

/// The request that reads an interface's flags (`SIOCGIFFLAGS`).
pub fn flags_request(ifname: &str) -> (r: Result<ifreq, IfError>)
    ensures
        r is Ok <==> from_name_outcome(ifname) is Ok,
        r matches Err(e) ==> e matches IfError::Io(io) && (io.raw_os_error, io.message@)
            == name_io_error(from_name_outcome(ifname)->Err_0),
        r matches Ok(req) ==> req.ifr_name@ == fresh_name(ifname) && req.ifr_flags == 0
            && req.ifr_ifindex == 0 && req.ifr_addr@ == zeros(SOCKADDR_SIZE as nat),
{
    match ifreq::from_name(ifname) {
        Ok(req) => Ok(req),
        Err(e) => Err(name_error(e)),
    }
}

/// The hardware address of an interface is that of its last link-layer
/// entry, kept unless all six of its bytes are zero: any address with a
/// nonzero byte is kept, and only the all-zero address is dropped.
pub proof fn lemma_hw_addr_kept(e: Seq<IfAddrEntry>, n: Seq<char>, j: int, m: MacBytes)
    requires
        0 <= j < e.len(),
        e[j].interface_name@ == n,
        e[j].address == Some(IfAddrKind::Link(m)),
        forall|k: int|
            j < k < e.len() && #[trigger] e[k].interface_name@ == n ==> !(e[k].address matches Some(
                IfAddrKind::Link(_),
            )),
    ensures
        (exists|i: int| 0 <= i < 6 && m@[i] != 0) ==> hw_addr_of(e, n) == Some(m),
        (forall|i: int| 0 <= i < 6 ==> m@[i] == 0) ==> hw_addr_of(e, n) is None,
    decreases e.len(),
{
    if j == e.len() - 1 {
        assert(e.last() == e[j]);
        if exists|i: int| 0 <= i < 6 && m@[i] != 0 {
            let i = choose|i: int| 0 <= i < 6 && m@[i] != 0;
            assert(m@ != seq![0u8, 0u8, 0u8, 0u8, 0u8, 0u8]) by {
                assert(seq![0u8, 0u8, 0u8, 0u8, 0u8, 0u8][i] == 0u8);
            }
        }
        if forall|i: int| 0 <= i < 6 ==> m@[i] == 0 {
            assert(m@ =~= seq![0u8, 0u8, 0u8, 0u8, 0u8, 0u8]);
        }
    } else {
        let last = e.len() - 1;
        assert(e.last() == e[last]);
        assert(!(e[last].interface_name@ == n && e[last].address is Some && e[last].address.unwrap() is Link));
        let d = e.drop_last();
        assert(d[j] == e[j]);
        assert forall|k: int| j < k < d.len() && #[trigger] d[k].interface_name@ == n implies !(d[k].address matches Some(
            IfAddrKind::Link(_),
        )) by {
            assert(d[k] == e[k]);
        }
        lemma_hw_addr_kept(d, n, j, m);
    }
}

} // verus!
