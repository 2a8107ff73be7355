//! FreeBSD's routing table dump (`sysctl` `CTL_NET`, `AF_ROUTE`, `NET_RT_DUMP`):
//! a sequence of routing messages, each a `struct rt_msghdr` followed by the
//! socket addresses that its `rtm_addrs` bit set announces. The layout read here
//! is the one of 64-bit little-endian FreeBSD.
#![allow(non_snake_case)]

use crate::ifstructs::{SockAddrBytes, SOCKADDR_SIZE};
use vstd::bytes::{
    spec_u16_from_le_bytes, spec_u32_from_le_bytes, spec_u64_from_le_bytes, u16_from_le_bytes,
    u32_from_le_bytes, u64_from_le_bytes,
};
use vstd::prelude::*;

verus! {

/// `CTL_NET`, the network branch of the `sysctl` tree.
pub const CTL_NET: i32 = 4;

/// `NET_RT_DUMP`, the routing table dump.
pub const NET_RT_DUMP: i32 = 1;

/// Size in bytes of `struct rt_msghdr`.
pub const RT_MSGHDR_SIZE: usize = 152;

/// Every bit that `RtfFlags` names.
pub const RTF_ALL_BITS: i32 = 0xd0fcde7fu32 as i32;

/// Every bit that `RtmAddrFlags` names.
pub const RTA_ALL_BITS: i32 = 0xff;

/// Route flags (`RTF_*` of FreeBSD's `<net/route.h>`).
#[derive(Debug, Clone, Copy, PartialEq, Eq, Structural)]
pub struct RtfFlags {
    pub bits: i32,
}

impl RtfFlags {
    /// The flags `bits`, or `None` where `bits` holds a bit that no flag names.
    pub fn from_bits(bits: i32) -> (r: Option<RtfFlags>)
        ensures
            r is Some <==> bits & !RTF_ALL_BITS == 0,
            r matches Some(f) ==> f.bits == bits,
    {
        if bits & !RTF_ALL_BITS == 0 {
            Some(RtfFlags { bits })
        } else {
            None
        }
    }

    pub fn bits(&self) -> (r: i32)
        ensures
            r == self.bits,
    {
        self.bits
    }

    pub fn contains(&self, other: RtfFlags) -> (r: bool)
        ensures
            r == (self.bits & other.bits == other.bits),
    {
        self.bits & other.bits == other.bits
    }
}

/// Which socket addresses follow a routing message header (`RTA_*`).
#[derive(Debug, Clone, Copy, PartialEq, Eq, Structural)]
pub struct RtmAddrFlags {
    pub bits: i32,
}

/// Whether the address bit set `addrs` holds every bit of `flag`.
pub open spec fn has_addr(addrs: i32, flag: i32) -> bool {
    addrs & flag == flag
}

impl RtmAddrFlags {
    /// The flags `bits`, or `None` where `bits` holds a bit that no flag names.
    pub fn from_bits(bits: i32) -> (r: Option<RtmAddrFlags>)
        ensures
            r is Some <==> bits & !RTA_ALL_BITS == 0,
            r matches Some(f) ==> f.bits == bits,
    {
        if bits & !RTA_ALL_BITS == 0 {
            Some(RtmAddrFlags { bits })
        } else {
            None
        }
    }

    pub fn contains(&self, other: RtmAddrFlags) -> (r: bool)
        ensures
            r == has_addr(self.bits, other.bits),
    {
        self.bits & other.bits == other.bits
    }

    pub fn RTA_DST() -> (r: RtmAddrFlags)
        ensures
            r.bits == 0x01,
    {
        RtmAddrFlags { bits: 0x01 }
    }

    pub fn RTA_GATEWAY() -> (r: RtmAddrFlags)
        ensures
            r.bits == 0x02,
    {
        RtmAddrFlags { bits: 0x02 }
    }

    pub fn RTA_NETMASK() -> (r: RtmAddrFlags)
        ensures
            r.bits == 0x04,
    {
        RtmAddrFlags { bits: 0x04 }
    }

    pub fn RTA_GENMASK() -> (r: RtmAddrFlags)
        ensures
            r.bits == 0x08,
    {
        RtmAddrFlags { bits: 0x08 }
    }

    pub fn RTA_IFP() -> (r: RtmAddrFlags)
        ensures
            r.bits == 0x10,
    {
        RtmAddrFlags { bits: 0x10 }
    }

    pub fn RTA_IFA() -> (r: RtmAddrFlags)
        ensures
            r.bits == 0x20,
    {
        RtmAddrFlags { bits: 0x20 }
    }

    pub fn RTA_AUTHOR() -> (r: RtmAddrFlags)
        ensures
            r.bits == 0x40,
    {
        RtmAddrFlags { bits: 0x40 }
    }

    pub fn RTA_BRD() -> (r: RtmAddrFlags)
        ensures
            r.bits == 0x80,
    {
        RtmAddrFlags { bits: 0x80 }
    }
}

/// `struct rt_metrics`.
#[derive(Debug, Clone, Copy, PartialEq, Eq, Structural)]
pub struct rt_metrics {
    pub rmx_locks: u64,
    pub rmx_mtu: u64,
    pub rmx_hopcount: u64,
    pub rmx_expire: u64,
    pub rmx_recvpipe: u64,
    pub rmx_sendpipe: u64,
    pub rmx_ssthresh: u64,
    pub rmx_rtt: u64,
    pub rmx_rttvar: u64,
    pub rmx_pksent: u64,
    pub rmx_weight: u64,
    pub rmx_filler0: u64,
    pub rmx_filler1: u64,
    pub rmx_filler2: u64,
}

/// `struct rt_msghdr`.
#[derive(Debug, Clone, Copy, PartialEq, Eq, Structural)]
pub struct rt_msghdr {
    pub rtm_msglen: u16,
    pub rtm_version: u8,
    pub rtm_type: u8,
    pub rtm_index: u16,
    pub rtm_flags: i32,
    pub rtm_addrs: i32,
    pub rtm_pid: i32,
    pub rtm_seq: i32,
    pub rtm_errno: i32,
    pub rtm_fmask: i32,
    pub rtm_inits: u64,
    pub rtm_rmx: rt_metrics,
}

/// Routing message types (`RTM_*`).
pub const RTM_ADD: u8 = 0x1;
pub const RTM_DELETE: u8 = 0x2;
pub const RTM_CHANGE: u8 = 0x3;
pub const RTM_GET: u8 = 0x4;
pub const RTM_LOSING: u8 = 0x5;
pub const RTM_REDIRECT: u8 = 0x6;
pub const RTM_MISS: u8 = 0x7;
pub const RTM_LOCK: u8 = 0x8;
pub const RTM_RESOLVE: u8 = 0xb;
pub const RTM_NEWADDR: u8 = 0xc;
pub const RTM_DELADDR: u8 = 0xd;
pub const RTM_IFINFO: u8 = 0xe;
pub const RTM_NEWMADDR: u8 = 0xf;
pub const RTM_DELMADDR: u8 = 0x10;
pub const RTM_IFANNOUNCE: u8 = 0x11;
pub const RTM_IEEE80211: u8 = 0x12;

/// The little-endian `u16` at `at`.
pub open spec fn le16(b: Seq<u8>, at: int) -> u16 {
    spec_u16_from_le_bytes(b.subrange(at, at + 2))
}

/// The little-endian `u32` at `at`.
pub open spec fn le32(b: Seq<u8>, at: int) -> u32 {
    spec_u32_from_le_bytes(b.subrange(at, at + 4))
}

/// The little-endian `u64` at `at`.
pub open spec fn le64(b: Seq<u8>, at: int) -> u64 {
    spec_u64_from_le_bytes(b.subrange(at, at + 8))
}

/// The routing message header that starts at `at`.
pub open spec fn header_at(b: Seq<u8>, at: int) -> rt_msghdr {
    rt_msghdr {
        rtm_msglen: le16(b, at),
        rtm_version: b[at + 2],
        rtm_type: b[at + 3],
        rtm_index: le16(b, at + 4),
        rtm_flags: le32(b, at + 8) as i32,
        rtm_addrs: le32(b, at + 12) as i32,
        rtm_pid: le32(b, at + 16) as i32,
        rtm_seq: le32(b, at + 20) as i32,
        rtm_errno: le32(b, at + 24) as i32,
        rtm_fmask: le32(b, at + 28) as i32,
        rtm_inits: le64(b, at + 32),
        rtm_rmx: rt_metrics {
            rmx_locks: le64(b, at + 40),
            rmx_mtu: le64(b, at + 48),
            rmx_hopcount: le64(b, at + 56),
            rmx_expire: le64(b, at + 64),
            rmx_recvpipe: le64(b, at + 72),
            rmx_sendpipe: le64(b, at + 80),
            rmx_ssthresh: le64(b, at + 88),
            rmx_rtt: le64(b, at + 96),
            rmx_rttvar: le64(b, at + 104),
            rmx_pksent: le64(b, at + 112),
            rmx_weight: le64(b, at + 120),
            rmx_filler0: le64(b, at + 128),
            rmx_filler1: le64(b, at + 136),
            rmx_filler2: le64(b, at + 144),
        },
    }
}

fn read_u16(b: &[u8], at: usize) -> (r: u16)
    requires
        at + 2 <= b@.len(),
    ensures
        r == le16(b@, at as int),
{
    let _n = b.len();
    u16_from_le_bytes(&b[at..at + 2])
}

fn read_u32(b: &[u8], at: usize) -> (r: u32)
    requires
        at + 4 <= b@.len(),
    ensures
        r == le32(b@, at as int),
{
    let _n = b.len();
    u32_from_le_bytes(&b[at..at + 4])
}

fn read_u64(b: &[u8], at: usize) -> (r: u64)
    requires
        at + 8 <= b@.len(),
    ensures
        r == le64(b@, at as int),
{
    let _n = b.len();
    u64_from_le_bytes(&b[at..at + 8])
}

/// Reads the routing message header that starts at `at`.
pub fn read_rt_msghdr(b: &[u8], at: usize) -> (r: rt_msghdr)
    requires
        at + RT_MSGHDR_SIZE <= b@.len(),
    ensures
        r == header_at(b@, at as int),
{
    let _n = b.len();
    rt_msghdr {
        rtm_msglen: read_u16(b, at),
        rtm_version: b[at + 2],
        rtm_type: b[at + 3],
        rtm_index: read_u16(b, at + 4),
        rtm_flags: read_u32(b, at + 8) as i32,
        rtm_addrs: read_u32(b, at + 12) as i32,
        rtm_pid: read_u32(b, at + 16) as i32,
        rtm_seq: read_u32(b, at + 20) as i32,
        rtm_errno: read_u32(b, at + 24) as i32,
        rtm_fmask: read_u32(b, at + 28) as i32,
        rtm_inits: read_u64(b, at + 32),
        rtm_rmx: rt_metrics {
            rmx_locks: read_u64(b, at + 40),
            rmx_mtu: read_u64(b, at + 48),
            rmx_hopcount: read_u64(b, at + 56),
            rmx_expire: read_u64(b, at + 64),
            rmx_recvpipe: read_u64(b, at + 72),
            rmx_sendpipe: read_u64(b, at + 80),
            rmx_ssthresh: read_u64(b, at + 88),
            rmx_rtt: read_u64(b, at + 96),
            rmx_rttvar: read_u64(b, at + 104),
            rmx_pksent: read_u64(b, at + 112),
            rmx_weight: read_u64(b, at + 120),
            rmx_filler0: read_u64(b, at + 128),
            rmx_filler1: read_u64(b, at + 136),
            rmx_filler2: read_u64(b, at + 144),
        },
    }
}

/// One when `addrs` announces the address `flag`, zero otherwise.
pub open spec fn addr_count(addrs: i32, flag: i32) -> int {
    if has_addr(addrs, flag) {
        1
    } else {
        0
    }
}

/// The addresses are read in this order: destination, gateway, netmask,
/// interface name, interface address, author, broadcast address (a genmask
/// address is not read). Offsets below count from the end of the header.
pub open spec fn gateway_slot(addrs: i32) -> int {
    addr_count(addrs, 0x01)
}

pub open spec fn netmask_slot(addrs: i32) -> int {
    gateway_slot(addrs) + addr_count(addrs, 0x02)
}

pub open spec fn ifp_slot(addrs: i32) -> int {
    netmask_slot(addrs) + addr_count(addrs, 0x04)
}

pub open spec fn ifa_slot(addrs: i32) -> int {
    ifp_slot(addrs) + addr_count(addrs, 0x10)
}

pub open spec fn author_slot(addrs: i32) -> int {
    ifa_slot(addrs) + addr_count(addrs, 0x20)
}

pub open spec fn brd_slot(addrs: i32) -> int {
    author_slot(addrs) + addr_count(addrs, 0x40)
}

/// The number of addresses that are read after the header.
pub open spec fn read_slots(addrs: i32) -> int {
    brd_slot(addrs) + addr_count(addrs, 0x80)
}

/// The number of bytes of a message that are read: its header and its addresses.
pub open spec fn consumed(addrs: i32) -> int {
    RT_MSGHDR_SIZE + SOCKADDR_SIZE * read_slots(addrs)
}

/// Whether the message that starts at `at` can be read: the header and
/// addresses fit in the buffer, its flag sets name only known bits, its
/// length covers what is read, and the next message's offset is a `usize`.
pub open spec fn message_ok(b: Seq<u8>, at: int) -> bool {
    let h = header_at(b, at);
    &&& 0 <= at
    &&& at + RT_MSGHDR_SIZE <= b.len()
    &&& h.rtm_flags & !RTF_ALL_BITS == 0
    &&& h.rtm_addrs & !RTA_ALL_BITS == 0
    &&& at + consumed(h.rtm_addrs) <= b.len()
    &&& consumed(h.rtm_addrs) <= h.rtm_msglen
    &&& at + h.rtm_msglen <= usize::MAX
}

/// A measure that shrinks from one message to the next.
pub open spec fn remaining(b: Seq<u8>, at: int) -> int {
    if at >= b.len() {
        0
    } else {
        b.len() - at
    }
}

/// The offsets of the messages from `at` on, or `None` where one of them
/// cannot be read.
pub open spec fn message_offsets(b: Seq<u8>, at: int) -> Option<Seq<int>>
    decreases remaining(b, at),
{
    if at < 0 || at >= b.len() {
        Some(Seq::empty())
    } else if !message_ok(b, at) {
        None
    } else {
        match message_offsets(b, at + header_at(b, at).rtm_msglen) {
            None => None,
            Some(rest) => Some(seq![at] + rest),
        }
    }
}

/// Whether a whole routing table dump can be read.
pub open spec fn routes_well_formed(b: Seq<u8>) -> bool {
    message_offsets(b, 0) is Some
}

/// The address announced by `flag` in slot `slot` of the message at `at`.
pub open spec fn addr_at(b: Seq<u8>, at: int, addrs: i32, flag: i32, slot: int) -> Option<
    Seq<u8>,
> {
    if has_addr(addrs, flag) {
        let from = at + RT_MSGHDR_SIZE + SOCKADDR_SIZE * slot;
        Some(b.subrange(from, from + SOCKADDR_SIZE))
    } else {
        None
    }
}

/// The view of an optional socket address.
pub open spec fn opt_addr(a: Option<SockAddrBytes>) -> Option<Seq<u8>> {
    match a {
        Some(x) => Some(x@),
        None => None,
    }
}

/// One routing table entry: what the message holds, with the index of its
/// interface (the caller looks the interface up).
#[derive(Debug, Clone, Copy)]
pub struct RouteMessage {
    pub header: rt_msghdr,
    pub flags: RtfFlags,
    pub destination: Option<SockAddrBytes>,
    pub gateway: Option<SockAddrBytes>,
    pub netmask: Option<SockAddrBytes>,
    pub iface_addr: Option<SockAddrBytes>,
    pub iface_index: u16,
}

/// Whether `m` is what the message at `at` holds.
pub open spec fn message_is(m: RouteMessage, b: Seq<u8>, at: int) -> bool {
    let h = header_at(b, at);
    let a = h.rtm_addrs;
    &&& m.header == h
    &&& m.flags.bits == h.rtm_flags
    &&& m.iface_index == h.rtm_index
    &&& opt_addr(m.destination) == addr_at(b, at, a, 0x01, 0)
    &&& opt_addr(m.gateway) == addr_at(b, at, a, 0x02, gateway_slot(a))
    &&& opt_addr(m.netmask) == addr_at(b, at, a, 0x04, netmask_slot(a))
    &&& opt_addr(m.iface_addr) == addr_at(b, at, a, 0x20, ifa_slot(a))
}

/// Where `flags` holds `if_flag`: the socket address at `*i`, and `*i`
/// moves past it. Otherwise `None`, and `*i` stays.
pub fn read_sockaddr_if_flag(
    i: &mut usize,
    buf: &[u8],
    flags: RtmAddrFlags,
    if_flag: RtmAddrFlags,
) -> (r: Option<SockAddrBytes>)
    requires
        has_addr(flags.bits, if_flag.bits) ==> *old(i) + SOCKADDR_SIZE <= buf@.len(),
    ensures
        has_addr(flags.bits, if_flag.bits) ==> {
            &&& *final(i) == *old(i) + SOCKADDR_SIZE
            &&& r matches Some(a) && a@ == buf@.subrange(
                *old(i) as int,
                *old(i) + SOCKADDR_SIZE,
            )
        },
        !has_addr(flags.bits, if_flag.bits) ==> *final(i) == *old(i) && r is None,
{
    let _n = buf.len();
    if flags.contains(if_flag) {
        let start = *i;
        let mut a: SockAddrBytes = [0u8; SOCKADDR_SIZE];
        let mut k: usize = 0;
        while k < SOCKADDR_SIZE
            invariant
                start + SOCKADDR_SIZE <= buf@.len(),
                buf@.len() <= usize::MAX,
                k <= SOCKADDR_SIZE,
                a@.len() == SOCKADDR_SIZE,
                forall|j: int| 0 <= j < k ==> a@[j] == buf@[start + j],
            decreases SOCKADDR_SIZE - k,
        {
            a[k] = buf[start + k];
            k = k + 1;
        }
        assert(a@ =~= buf@.subrange(start as int, start + SOCKADDR_SIZE));
        *i = start + SOCKADDR_SIZE;
        Some(a)
    } else {
        None
    }
}

/// Reads the message at `at`; returns it with the offset of the next one.
fn read_message(buf: &[u8], at: usize) -> (r: (RouteMessage, usize))
    requires
        message_ok(buf@, at as int),
    ensures
        message_is(r.0, buf@, at as int),
        r.1 == at + header_at(buf@, at as int).rtm_msglen,
{
    let hdr = read_rt_msghdr(buf, at);
    let mut i = at + RT_MSGHDR_SIZE;
    let rtm_flags = RtfFlags::from_bits(hdr.rtm_flags).unwrap();
    let rtm_addr_flags = RtmAddrFlags::from_bits(hdr.rtm_addrs).unwrap();
    let ghost a = hdr.rtm_addrs;
    let destination = read_sockaddr_if_flag(&mut i, buf, rtm_addr_flags, RtmAddrFlags::RTA_DST());
    assert(i == at + RT_MSGHDR_SIZE + SOCKADDR_SIZE * gateway_slot(a));
    let gateway = read_sockaddr_if_flag(&mut i, buf, rtm_addr_flags, RtmAddrFlags::RTA_GATEWAY());
    assert(i == at + RT_MSGHDR_SIZE + SOCKADDR_SIZE * netmask_slot(a));
    let netmask = read_sockaddr_if_flag(&mut i, buf, rtm_addr_flags, RtmAddrFlags::RTA_NETMASK());
    assert(i == at + RT_MSGHDR_SIZE + SOCKADDR_SIZE * ifp_slot(a));
    let _iface_name = read_sockaddr_if_flag(&mut i, buf, rtm_addr_flags, RtmAddrFlags::RTA_IFP());
    assert(i == at + RT_MSGHDR_SIZE + SOCKADDR_SIZE * ifa_slot(a));
    let iface_addr = read_sockaddr_if_flag(&mut i, buf, rtm_addr_flags, RtmAddrFlags::RTA_IFA());
    assert(i == at + RT_MSGHDR_SIZE + SOCKADDR_SIZE * author_slot(a));
    let _author = read_sockaddr_if_flag(&mut i, buf, rtm_addr_flags, RtmAddrFlags::RTA_AUTHOR());
    assert(i == at + RT_MSGHDR_SIZE + SOCKADDR_SIZE * brd_slot(a));
    let _brd = read_sockaddr_if_flag(&mut i, buf, rtm_addr_flags, RtmAddrFlags::RTA_BRD());
    assert(i == at + consumed(a));
    let unprocessed_bytes = (hdr.rtm_msglen as usize) - (i - at);
    if unprocessed_bytes > 0 {
        i = i + unprocessed_bytes;
    }
    let m = RouteMessage {
        header: hdr,
        flags: rtm_flags,
        destination,
        gateway,
        netmask,
        iface_addr,
        iface_index: hdr.rtm_index,
    };
    (m, i)
}

/// Reads every message of a routing table dump, in order.
pub fn read_route_messages(buf: &[u8]) -> (r: Vec<RouteMessage>)
    requires
        routes_well_formed(buf@),
    ensures
        r@.len() == message_offsets(buf@, 0).unwrap().len(),
        forall|k: int|
            0 <= k < r@.len() ==> message_is(
                #[trigger] r@[k],
                buf@,
                message_offsets(buf@, 0).unwrap()[k],
            ),
{
    let ghost offs = message_offsets(buf@, 0).unwrap();
    let mut out: Vec<RouteMessage> = Vec::new();
    let mut i: usize = 0;
    while i < buf.len()
        invariant
            message_offsets(buf@, i as int) is Some,
            out@.len() + message_offsets(buf@, i as int).unwrap().len() == offs.len(),
            forall|k: int| 0 <= k < out@.len() ==> message_is(#[trigger] out@[k], buf@, offs[k]),
            forall|k: int|
                0 <= k < message_offsets(buf@, i as int).unwrap().len() ==> offs[out@.len() + k]
                    == #[trigger] message_offsets(buf@, i as int).unwrap()[k],
            offs == message_offsets(buf@, 0).unwrap(),
        decreases remaining(buf@, i as int),
    {
        let (m, next) = read_message(buf, i);
        let ghost rest = message_offsets(buf@, next as int).unwrap();
        let ghost here = message_offsets(buf@, i as int).unwrap();
        assert(here =~= seq![i as int] + rest);
        assert(offs[out@.len() + 0int] == here[0]);
        let ghost before = out@;
        out.push(m);
        assert forall|k: int| 0 <= k < rest.len() implies offs[out@.len() + k] == #[trigger] rest[k] by {
            assert(offs[before.len() + (k + 1)] == here[k + 1]);
        }
        i = next;
    }
    out
}

/// Whether a message can be read at `at` of `buf` (see `message_ok`).
pub fn message_fits(buf: &[u8], at: usize) -> (r: bool)
    ensures
        r == message_ok(buf@, at as int),
{
    if buf.len() < RT_MSGHDR_SIZE || at > buf.len() - RT_MSGHDR_SIZE {
        return false;
    }
    let hdr = read_rt_msghdr(buf, at);
    if hdr.rtm_flags & !RTF_ALL_BITS != 0 || hdr.rtm_addrs & !RTA_ALL_BITS != 0 {
        return false;
    }
    let flags = RtmAddrFlags { bits: hdr.rtm_addrs };
    let mut need: usize = RT_MSGHDR_SIZE;
    if flags.contains(RtmAddrFlags::RTA_DST()) {
        need = need + SOCKADDR_SIZE;
    }
    if flags.contains(RtmAddrFlags::RTA_GATEWAY()) {
        need = need + SOCKADDR_SIZE;
    }
    if flags.contains(RtmAddrFlags::RTA_NETMASK()) {
        need = need + SOCKADDR_SIZE;
    }
    if flags.contains(RtmAddrFlags::RTA_IFP()) {
        need = need + SOCKADDR_SIZE;
    }
    if flags.contains(RtmAddrFlags::RTA_IFA()) {
        need = need + SOCKADDR_SIZE;
    }
    if flags.contains(RtmAddrFlags::RTA_AUTHOR()) {
        need = need + SOCKADDR_SIZE;
    }
    if flags.contains(RtmAddrFlags::RTA_BRD()) {
        need = need + SOCKADDR_SIZE;
    }
    assert(need == consumed(hdr.rtm_addrs));
    if need > buf.len() - at || (hdr.rtm_msglen as usize) < need {
        return false;
    }
    if at > usize::MAX - (hdr.rtm_msglen as usize) {
        return false;
    }
    true
}

/// The message at `at` of `buf`, with where the next one starts; `None`
/// where no message can be read there. Reading a dump message by message
/// lets the caller act on each before the next is looked at.
pub fn next_route_message(buf: &[u8], at: usize) -> (r: Option<(RouteMessage, usize)>)
    ensures
        r is Some <==> message_ok(buf@, at as int),
        r matches Some((m, next)) ==> message_is(m, buf@, at as int) && next == at
            + header_at(buf@, at as int).rtm_msglen,
{
    if message_fits(buf, at) {
        Some(read_message(buf, at))
    } else {
        None
    }
}

/// Whether a whole routing table dump can be read (see `routes_well_formed`).
pub fn check_route_messages(buf: &[u8]) -> (r: bool)
    ensures
        r == routes_well_formed(buf@),
{
    let mut i: usize = 0;
    while i < buf.len()
        invariant
            routes_well_formed(buf@) == (message_offsets(buf@, i as int) is Some),
        decreases remaining(buf@, i as int),
    {
        if !message_fits(buf, i) {
            return false;
        }
        let hdr = read_rt_msghdr(buf, i);
        i = i + hdr.rtm_msglen as usize;
    }
    true
}

/// The addresses of a routing message follow its header in increasing order
/// of their flags (destination 0x1, gateway 0x2, netmask 0x4, interface name
/// 0x10, interface address 0x20), each taking 16 bytes, only those announced
/// present: an address starts after the header plus 16 bytes for each
/// announced address of a lower flag. So with destination, gateway and
/// netmask announced, the gateway is at header + 16 and the netmask at
/// header + 32.
pub proof fn lemma_address_order(m: RouteMessage, b: Seq<u8>, at: int)
    requires
        message_is(m, b, at),
    ensures
        ({
            let a = header_at(b, at).rtm_addrs;
            let dst: int = if a & 0x1 == 0x1 { 1 } else { 0 };
            let gw: int = if a & 0x2 == 0x2 { 1 } else { 0 };
            let mask: int = if a & 0x4 == 0x4 { 1 } else { 0 };
            let ifp: int = if a & 0x10 == 0x10 { 1 } else { 0 };
            let base = at + 152;
            &&& a & 0x1 == 0x1 ==> opt_addr(m.destination) == Some(b.subrange(base, base + 16))
            &&& a & 0x1 != 0x1 ==> m.destination is None
            &&& a & 0x2 == 0x2 ==> opt_addr(m.gateway) == Some(b.subrange(
                base + 16 * dst,
                base + 16 * dst + 16,
            ))
            &&& a & 0x2 != 0x2 ==> m.gateway is None
            &&& a & 0x4 == 0x4 ==> opt_addr(m.netmask) == Some(b.subrange(
                base + 16 * (dst + gw),
                base + 16 * (dst + gw) + 16,
            ))
            &&& a & 0x4 != 0x4 ==> m.netmask is None
            &&& a & 0x20 == 0x20 ==> opt_addr(m.iface_addr) == Some(b.subrange(
                base + 16 * (dst + gw + mask + ifp),
                base + 16 * (dst + gw + mask + ifp) + 16,
            ))
            &&& a & 0x20 != 0x20 ==> m.iface_addr is None
        }),
{
}

} // verus!
