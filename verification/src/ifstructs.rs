//! The kernel's interface request structures, as values that the library
//! reads and writes. A C union of these structures is held as the members of
//! it that this library reads or writes; the caller that issues the `ioctl`
//! moves each of them to and from the C member that the request uses.
use crate::flags::{IfFlags, IFF_ALL_BITS};
use crate::ifname::{
    get_name, lemma_name_round_trip, name_fits, name_from_str, name_text, set_name,
    set_name_outcome, stored_name, IfName, IfNameError, IFNAMSIZ,
};
use vstd::prelude::*;
use vstd::string::StringSliceAdditionalSpecFns;

verus! {

/// Size in bytes of a `struct sockaddr`.
pub const SOCKADDR_SIZE: usize = 16;

/// The bytes of a `struct sockaddr`.
pub type SockAddrBytes = [u8; SOCKADDR_SIZE];

/// Size in bytes of FreeBSD's `struct ifbreq`.
pub const IFBREQ_SIZE: usize = 80;

/// `n` zero bytes.
pub open spec fn zeros(n: nat) -> Seq<u8> {
    Seq::new(n, |i: int| 0u8)
}

/// The name buffer of a zeroed structure after storing `name` in it.
pub open spec fn fresh_name(name: &str) -> Seq<u8> {
    stored_name(zeros(IFNAMSIZ as nat), name.spec_bytes())
}

/// The outcome of storing `name` in a zeroed structure.
pub open spec fn from_name_outcome(name: &str) -> Result<(), IfNameError> {
    set_name_outcome(name.spec_bytes())
}

/// A request made from a name that fits holds that name: reading the name of
/// `X::from_name(name)` gives `name` back.
pub proof fn lemma_from_name_round_trip(name: &str)
    requires
        name_fits(name@),
    ensures
        from_name_outcome(name) is Ok,
        name_text(fresh_name(name)) == Some(name@),
{
    lemma_name_round_trip(zeros(IFNAMSIZ as nat), name@);
}

/// `struct ifreq`: an interface name and the request's argument.
#[derive(Debug, Clone, Copy)]
pub struct ifreq {
    pub ifr_name: IfName,
    /// `ifr_flags`, the interface flags as the kernel stores them.
    pub ifr_flags: i16,
    /// `ifr_ifindex`.
    pub ifr_ifindex: i32,
    /// `ifr_addr`.
    pub ifr_addr: SockAddrBytes,
}

/// The flags that a flag word of the kernel holds.
pub open spec fn flags_of_word(word: i16) -> IfFlags {
    IfFlags { bits: (word as i32) & IFF_ALL_BITS }
}

impl ifreq {
    /// A zeroed request naming the interface `name`.
    pub fn from_name(name: &str) -> (r: Result<ifreq, IfNameError>)
        ensures
            r is Ok <==> from_name_outcome(name) is Ok,
            r matches Err(e) ==> from_name_outcome(name) == Err::<(), IfNameError>(e),
            r matches Ok(req) ==> {
                &&& req.ifr_name@ == fresh_name(name)
                &&& req.ifr_flags == 0
                &&& req.ifr_ifindex == 0
                &&& req.ifr_addr@ == zeros(SOCKADDR_SIZE as nat)
            },
    {
        let mut req = ifreq {
            ifr_name: [0u8; IFNAMSIZ],
            ifr_flags: 0,
            ifr_ifindex: 0,
            ifr_addr: [0u8; SOCKADDR_SIZE],
        };
        assert(req.ifr_name@ =~= zeros(IFNAMSIZ as nat));
        assert(req.ifr_addr@ =~= zeros(SOCKADDR_SIZE as nat));
        match set_name(&mut req.ifr_name, name) {
            Ok(()) => Ok(req),
            Err(e) => Err(e),
        }
    }

    pub fn set_name(&mut self, name: &str) -> (r: Result<(), IfNameError>)
        ensures
            r == set_name_outcome(name.spec_bytes()),
            r is Ok ==> final(self).ifr_name@ == stored_name(old(self).ifr_name@, name.spec_bytes()),
            r is Err ==> final(self).ifr_name == old(self).ifr_name,
            final(self).ifr_flags == old(self).ifr_flags,
            final(self).ifr_ifindex == old(self).ifr_ifindex,
            final(self).ifr_addr == old(self).ifr_addr,
    {
        set_name(&mut self.ifr_name, name)
    }

    pub fn get_name(&self) -> (r: Result<String, IfNameError>)
        ensures
            r is Ok <==> name_text(self.ifr_name@) is Some,
            r matches Ok(s) ==> name_text(self.ifr_name@) == Some(s@),
            r matches Err(e) ==> e == IfNameError::Malformed,
    {
        get_name(&self.ifr_name)
    }

    /// The interface flags that the request holds.
    pub fn get_flags(&self) -> (r: IfFlags)
        ensures
            r == flags_of_word(self.ifr_flags),
    {
        IfFlags::from_bits_truncate(self.ifr_flags as i32)
    }

    /// Stores `flags` in the request's 16-bit flag word.
    pub fn set_flags(&mut self, flags: IfFlags)
        ensures
            final(self).ifr_flags == flags.bits as i16,
            final(self).ifr_name == old(self).ifr_name,
            final(self).ifr_ifindex == old(self).ifr_ifindex,
            final(self).ifr_addr == old(self).ifr_addr,
    {
        self.ifr_flags = flags.bits() as i16;
    }

    /// Stores a raw flag word.
    pub fn set_raw_flags(&mut self, raw_flags: i16)
        ensures
            final(self).ifr_flags == raw_flags,
            final(self).ifr_name == old(self).ifr_name,
            final(self).ifr_ifindex == old(self).ifr_ifindex,
            final(self).ifr_addr == old(self).ifr_addr,
    {
        self.ifr_flags = raw_flags;
    }

    pub fn set_addr(&mut self, addr: SockAddrBytes)
        ensures
            final(self).ifr_addr == addr,
            final(self).ifr_name == old(self).ifr_name,
            final(self).ifr_flags == old(self).ifr_flags,
            final(self).ifr_ifindex == old(self).ifr_ifindex,
    {
        self.ifr_addr = addr;
    }

    pub fn set_iface_index(&mut self, idx: i32)
        ensures
            final(self).ifr_ifindex == idx,
            final(self).ifr_name == old(self).ifr_name,
            final(self).ifr_flags == old(self).ifr_flags,
            final(self).ifr_addr == old(self).ifr_addr,
    {
        self.ifr_ifindex = idx;
    }

    pub fn get_iface_index(&self) -> (r: i32)
        ensures
            r == self.ifr_ifindex,
    {
        self.ifr_ifindex
    }
}

/// Storing interface flags in a request and reading them back gives the same
/// flags, for every flag set made of the named flags.
pub proof fn lemma_flags_round_trip(flags: IfFlags)
    requires
        flags.bits & !IFF_ALL_BITS == 0,
    ensures
        flags_of_word(flags.bits as i16) == flags,
{
    let b = flags.bits;
    assert(((b as i16) as i32) & 0xffff == b) by (bit_vector)
        requires
            b & !0xffffi32 == 0,
    ;
}

/// `struct ifaliasreq`: an interface name with an address, its broadcast
/// address and its mask.
#[derive(Debug, Clone, Copy)]
pub struct ifaliasreq {
    pub ifra_name: IfName,
    pub ifra_addr: SockAddrBytes,
    pub ifra_broadaddr: SockAddrBytes,
    pub ifra_mask: SockAddrBytes,
}

impl ifaliasreq {
    pub fn set_name(&mut self, name: &str) -> (r: Result<(), IfNameError>)
        ensures
            r == set_name_outcome(name.spec_bytes()),
            r is Ok ==> final(self).ifra_name@ == stored_name(old(self).ifra_name@, name.spec_bytes()),
            r is Err ==> final(self).ifra_name == old(self).ifra_name,
            final(self).ifra_addr == old(self).ifra_addr,
            final(self).ifra_broadaddr == old(self).ifra_broadaddr,
            final(self).ifra_mask == old(self).ifra_mask,
    {
        set_name(&mut self.ifra_name, name)
    }

    pub fn get_name(&self) -> (r: Result<String, IfNameError>)
        ensures
            r is Ok <==> name_text(self.ifra_name@) is Some,
            r matches Ok(s) ==> name_text(self.ifra_name@) == Some(s@),
            r matches Err(e) ==> e == IfNameError::Malformed,
    {
        get_name(&self.ifra_name)
    }

    /// A zeroed request naming the interface `name`.
    pub fn from_name(name: &str) -> (r: Result<ifaliasreq, IfNameError>)
        ensures
            r is Ok <==> from_name_outcome(name) is Ok,
            r matches Err(e) ==> from_name_outcome(name) == Err::<(), IfNameError>(e),
            r matches Ok(req) ==> {
                &&& req.ifra_name@ == fresh_name(name)
                &&& req.ifra_addr@ == zeros(SOCKADDR_SIZE as nat)
                &&& req.ifra_broadaddr@ == zeros(SOCKADDR_SIZE as nat)
                &&& req.ifra_mask@ == zeros(SOCKADDR_SIZE as nat)
            },
    {
        let mut req = ifaliasreq {
            ifra_name: [0u8; IFNAMSIZ],
            ifra_addr: [0u8; SOCKADDR_SIZE],
            ifra_broadaddr: [0u8; SOCKADDR_SIZE],
            ifra_mask: [0u8; SOCKADDR_SIZE],
        };
        assert(req.ifra_name@ =~= zeros(IFNAMSIZ as nat));
        assert(req.ifra_addr@ =~= zeros(SOCKADDR_SIZE as nat));
        match set_name(&mut req.ifra_name, name) {
            Ok(()) => Ok(req),
            Err(e) => Err(e),
        }
    }
}

/// `struct ifdrv` (FreeBSD): a driver-specific request to an interface. The
/// data it points to is passed beside it.
#[derive(Debug, Clone, Copy)]
pub struct ifdrv {
    pub ifd_name: IfName,
    pub ifd_cmd: u64,
    pub ifd_len: usize,
}

impl ifdrv {
    pub fn set_name(&mut self, name: &str) -> (r: Result<(), IfNameError>)
        ensures
            r == set_name_outcome(name.spec_bytes()),
            r is Ok ==> final(self).ifd_name@ == stored_name(old(self).ifd_name@, name.spec_bytes()),
            r is Err ==> final(self).ifd_name == old(self).ifd_name,
            final(self).ifd_cmd == old(self).ifd_cmd,
            final(self).ifd_len == old(self).ifd_len,
    {
        set_name(&mut self.ifd_name, name)
    }

    pub fn get_name(&self) -> (r: Result<String, IfNameError>)
        ensures
            r is Ok <==> name_text(self.ifd_name@) is Some,
            r matches Ok(s) ==> name_text(self.ifd_name@) == Some(s@),
            r matches Err(e) ==> e == IfNameError::Malformed,
    {
        get_name(&self.ifd_name)
    }

    /// A zeroed request naming the interface `name`.
    pub fn from_name(name: &str) -> (r: Result<ifdrv, IfNameError>)
        ensures
            r is Ok <==> from_name_outcome(name) is Ok,
            r matches Err(e) ==> from_name_outcome(name) == Err::<(), IfNameError>(e),
            r matches Ok(req) ==> {
                &&& req.ifd_name@ == fresh_name(name)
                &&& req.ifd_cmd == 0
                &&& req.ifd_len == 0
            },
    {
        let mut req = ifdrv { ifd_name: [0u8; IFNAMSIZ], ifd_cmd: 0, ifd_len: 0 };
        assert(req.ifd_name@ =~= zeros(IFNAMSIZ as nat));
        match set_name(&mut req.ifd_name, name) {
            Ok(()) => Ok(req),
            Err(e) => Err(e),
        }
    }
}

/// `struct ifbreq` (FreeBSD): a bridge member request.
#[derive(Debug, Clone, Copy)]
pub struct ifbreq {
    pub ifbr_ifsname: IfName,
    pub ifbr_ifsflags: u32,
    pub ifbr_stpflags: u32,
    pub ifbr_path_cost: u32,
    pub ifbr_portno: u8,
    pub ifbr_priority: u8,
    pub ifbr_proto: u8,
    pub ifbr_role: u8,
    pub ifbr_state: u8,
    pub ifbr_addrcnt: u32,
    pub ifbr_addrmax: u32,
    pub ifbr_addrexceeded: u32,
    pub pad: [u8; 32],
}

/// Whether every field of a bridge member request but its name is zero.
pub open spec fn ifbreq_rest_zero(req: ifbreq) -> bool {
    &&& req.ifbr_ifsflags == 0
    &&& req.ifbr_stpflags == 0
    &&& req.ifbr_path_cost == 0
    &&& req.ifbr_portno == 0
    &&& req.ifbr_priority == 0
    &&& req.ifbr_proto == 0
    &&& req.ifbr_role == 0
    &&& req.ifbr_state == 0
    &&& req.ifbr_addrcnt == 0
    &&& req.ifbr_addrmax == 0
    &&& req.ifbr_addrexceeded == 0
    &&& req.pad@ == zeros(32)
}

impl ifbreq {
    pub fn set_name(&mut self, name: &str) -> (r: Result<(), IfNameError>)
        ensures
            r == set_name_outcome(name.spec_bytes()),
            r is Ok ==> final(self).ifbr_ifsname@ == stored_name(
                old(self).ifbr_ifsname@,
                name.spec_bytes(),
            ),
            r is Err ==> final(self).ifbr_ifsname == old(self).ifbr_ifsname,
            (ifbreq { ifbr_ifsname: old(self).ifbr_ifsname, ..*final(self) }) == *old(self),
    {
        set_name(&mut self.ifbr_ifsname, name)
    }

    pub fn get_name(&self) -> (r: Result<String, IfNameError>)
        ensures
            r is Ok <==> name_text(self.ifbr_ifsname@) is Some,
            r matches Ok(s) ==> name_text(self.ifbr_ifsname@) == Some(s@),
            r matches Err(e) ==> e == IfNameError::Malformed,
    {
        get_name(&self.ifbr_ifsname)
    }

    /// A zeroed request naming the interface `name`.
    pub fn from_name(name: &str) -> (r: Result<ifbreq, IfNameError>)
        ensures
            r is Ok <==> from_name_outcome(name) is Ok,
            r matches Err(e) ==> from_name_outcome(name) == Err::<(), IfNameError>(e),
            r matches Ok(req) ==> req.ifbr_ifsname@ == fresh_name(name) && ifbreq_rest_zero(req),
    {
        let mut req = ifbreq {
            ifbr_ifsname: [0u8; IFNAMSIZ],
            ifbr_ifsflags: 0,
            ifbr_stpflags: 0,
            ifbr_path_cost: 0,
            ifbr_portno: 0,
            ifbr_priority: 0,
            ifbr_proto: 0,
            ifbr_role: 0,
            ifbr_state: 0,
            ifbr_addrcnt: 0,
            ifbr_addrmax: 0,
            ifbr_addrexceeded: 0,
            pad: [0u8; 32],
        };
        assert(req.ifbr_ifsname@ =~= zeros(IFNAMSIZ as nat));
        assert(req.pad@ =~= zeros(32));
        match set_name(&mut req.ifbr_ifsname, name) {
            Ok(()) => Ok(req),
            Err(e) => Err(e),
        }
    }
}

/// `union ifgrq_ifgrqu` (FreeBSD): a group name or a member name. Both
/// members of the union are the same name buffer, held here once.
#[derive(Debug, Clone, Copy)]
pub struct ifgrq_ifgrqu {
    pub ifgrqu_group: IfName,
}

impl ifgrq_ifgrqu {
    pub fn set_group_name(&mut self, name: &str) -> (r: Result<(), IfNameError>)
        ensures
            r == set_name_outcome(name.spec_bytes()),
            r is Ok ==> final(self).ifgrqu_group@ == stored_name(
                old(self).ifgrqu_group@,
                name.spec_bytes(),
            ),
            r is Err ==> *final(self) == *old(self),
    {
        set_name(&mut self.ifgrqu_group, name)
    }

    pub fn get_group_name(&self) -> (r: Result<String, IfNameError>)
        ensures
            r is Ok <==> name_text(self.ifgrqu_group@) is Some,
            r matches Ok(s) ==> name_text(self.ifgrqu_group@) == Some(s@),
            r matches Err(e) ==> e == IfNameError::Malformed,
    {
        get_name(&self.ifgrqu_group)
    }

    pub fn from_group_name(name: &str) -> (r: Result<ifgrq_ifgrqu, IfNameError>)
        ensures
            r is Ok <==> from_name_outcome(name) is Ok,
            r matches Err(e) ==> from_name_outcome(name) == Err::<(), IfNameError>(e),
            r matches Ok(req) ==> req.ifgrqu_group@ == fresh_name(name),
    {
        match name_from_str(name) {
            Ok(buf) => Ok(ifgrq_ifgrqu { ifgrqu_group: buf }),
            Err(e) => Err(e),
        }
    }

    /// Stores a member name: the same storage as the group name.
    pub fn set_member_name(&mut self, name: &str) -> (r: Result<(), IfNameError>)
        ensures
            r == set_name_outcome(name.spec_bytes()),
            r is Ok ==> final(self).ifgrqu_group@ == stored_name(
                old(self).ifgrqu_group@,
                name.spec_bytes(),
            ),
            r is Err ==> *final(self) == *old(self),
    {
        set_name(&mut self.ifgrqu_group, name)
    }

    /// Reads the member name: the same storage as the group name.
    pub fn get_member_name(&self) -> (r: Result<String, IfNameError>)
        ensures
            r is Ok <==> name_text(self.ifgrqu_group@) is Some,
            r matches Ok(s) ==> name_text(self.ifgrqu_group@) == Some(s@),
            r matches Err(e) ==> e == IfNameError::Malformed,
    {
        get_name(&self.ifgrqu_group)
    }

    pub fn from_member_name(name: &str) -> (r: Result<ifgrq_ifgrqu, IfNameError>)
        ensures
            r is Ok <==> from_name_outcome(name) is Ok,
            r matches Err(e) ==> from_name_outcome(name) == Err::<(), IfNameError>(e),
            r matches Ok(req) ==> req.ifgrqu_group@ == fresh_name(name),
    {
        match name_from_str(name) {
            Ok(buf) => Ok(ifgrq_ifgrqu { ifgrqu_group: buf }),
            Err(e) => Err(e),
        }
    }
}

/// `struct ifg_req` (FreeBSD): one entry of an interface's group list.
#[derive(Debug, Clone, Copy)]
pub struct ifg_req {
    pub ifgrq_ifgrqu: ifgrq_ifgrqu,
}

/// Why a group list could not be read.
#[derive(Debug, Clone, Copy, PartialEq, Eq, Structural)]
pub enum GroupListError {
    /// The list's length is not a multiple of `IFNAMSIZ` ("bad len").
    BadLength,
    /// An entry holds no well-formed name.
    Malformed,
}

/// The names of the group list `buf`, entry by entry (each `IFNAMSIZ` bytes),
/// or `None` where an entry holds no well-formed name.
pub open spec fn group_names_spec(buf: Seq<u8>) -> Option<Seq<Seq<char>>>
    decreases buf.len(),
{
    if buf.len() < IFNAMSIZ {
        Some(Seq::empty())
    } else {
        match name_text(buf.take(IFNAMSIZ as int)) {
            None => None,
            Some(first) => match group_names_spec(buf.skip(IFNAMSIZ as int)) {
                None => None,
                Some(rest) => Some(seq![first] + rest),
            },
        }
    }
}

/// `union ifgr_ifgru` (FreeBSD): a group name, or the group list that the
/// kernel fills in (passed beside it).
#[derive(Debug, Clone, Copy)]
pub struct ifgr_ifgru {
    pub ifgru_group: IfName,
}

impl ifgr_ifgru {
    pub fn set_group_name(&mut self, name: &str) -> (r: Result<(), IfNameError>)
        ensures
            r == set_name_outcome(name.spec_bytes()),
            r is Ok ==> final(self).ifgru_group@ == stored_name(
                old(self).ifgru_group@,
                name.spec_bytes(),
            ),
            r is Err ==> *final(self) == *old(self),
    {
        set_name(&mut self.ifgru_group, name)
    }

    pub fn get_group_name(&self) -> (r: Result<String, IfNameError>)
        ensures
            r is Ok <==> name_text(self.ifgru_group@) is Some,
            r matches Ok(s) ==> name_text(self.ifgru_group@) == Some(s@),
            r matches Err(e) ==> e == IfNameError::Malformed,
    {
        get_name(&self.ifgru_group)
    }

    pub fn from_group_name(name: &str) -> (r: Result<ifgr_ifgru, IfNameError>)
        ensures
            r is Ok <==> from_name_outcome(name) is Ok,
            r matches Err(e) ==> from_name_outcome(name) == Err::<(), IfNameError>(e),
            r matches Ok(req) ==> req.ifgru_group@ == fresh_name(name),
    {
        match name_from_str(name) {
            Ok(buf) => Ok(ifgr_ifgru { ifgru_group: buf }),
            Err(e) => Err(e),
        }
    }

    /// The group names in the first `len` bytes of `groups`, the list that
    /// the kernel wrote: `len` must be a multiple of `IFNAMSIZ`.
    pub fn get_group_names(groups: &[u8], len: usize) -> (r: Result<Vec<String>, GroupListError>)
        requires
            len <= groups@.len(),
        ensures
            len % IFNAMSIZ != 0 ==> r == Err::<Vec<String>, GroupListError>(
                GroupListError::BadLength,
            ),
            len % IFNAMSIZ == 0 ==> match group_names_spec(groups@.take(len as int)) {
                None => r == Err::<Vec<String>, GroupListError>(GroupListError::Malformed),
                Some(names) => r matches Ok(v) && v@.len() == names.len() && forall|i: int|
                    0 <= i < names.len() ==> #[trigger] v@[i]@ == names[i],
            },
    {
        if len % IFNAMSIZ != 0 {
            return Err(GroupListError::BadLength);
        }
        let ghost all = groups@.take(len as int);
        let mut names: Vec<String> = Vec::new();
        let mut start: usize = 0;
        proof {
            assert(all.skip(0) =~= all);
            match group_names_spec(all) {
                None => {},
                Some(rest) => {
                    assert(names@.map_values(|s: String| s@) + rest =~= rest);
                },
            }
        }
        while start < len
            invariant
                len <= groups@.len(),
                len % IFNAMSIZ == 0,
                all == groups@.take(len as int),
                start % IFNAMSIZ == 0,
                start <= len,
                group_names_spec(all) == match group_names_spec(all.skip(start as int)) {
                    None => None::<Seq<Seq<char>>>,
                    Some(rest) => Some(names@.map_values(|s: String| s@) + rest),
                },
            decreases len - start,
        {
            let mut part: IfName = [0u8; IFNAMSIZ];
            let mut j: usize = 0;
            while j < IFNAMSIZ
                invariant
                    start < len <= groups@.len(),
                    len % IFNAMSIZ == 0,
                    start % IFNAMSIZ == 0,
                    j <= IFNAMSIZ,
                    part@.len() == IFNAMSIZ,
                    forall|k: int| 0 <= k < j ==> part@[k] == groups@[start + k],
                decreases IFNAMSIZ - j,
            {
                part[j] = groups[start + j];
                j = j + 1;
            }
            let ghost rest = all.skip(start as int);
            assert(part@ =~= rest.take(IFNAMSIZ as int));
            assert(rest.skip(IFNAMSIZ as int) =~= all.skip(start + IFNAMSIZ as int));
            match get_name(&part) {
                Ok(name) => {
                    let ghost before = names@;
                    names.push(name);
                    assert(names@.map_values(|s: String| s@) =~= before.map_values(
                        |s: String| s@,
                    ) + seq![name@]);
                    proof {
                        match group_names_spec(all.skip(start + IFNAMSIZ as int)) {
                            None => {},
                            Some(r2) => {
                                assert(names@.map_values(|s: String| s@) + r2
                                    =~= before.map_values(|s: String| s@) + (seq![name@] + r2));
                            },
                        }
                    }
                },
                Err(_) => {
                    return Err(GroupListError::Malformed);
                },
            }
            start = start + IFNAMSIZ;
        }
        assert(all.skip(start as int).len() == 0);
        assert(names@.map_values(|s: String| s@) + Seq::<Seq<char>>::empty() =~= names@.map_values(
            |s: String| s@,
        ));
        Ok(names)
    }
}

/// `struct ifgroupreq` (FreeBSD): the request that reads an interface's
/// group list.
#[derive(Debug, Clone, Copy)]
pub struct ifgroupreq {
    pub ifgr_name: IfName,
    pub ifgr_len: u32,
    pub ifgr_ifgru: ifgr_ifgru,
}

impl ifgroupreq {
    pub fn set_name(&mut self, name: &str) -> (r: Result<(), IfNameError>)
        ensures
            r == set_name_outcome(name.spec_bytes()),
            r is Ok ==> final(self).ifgr_name@ == stored_name(old(self).ifgr_name@, name.spec_bytes()),
            r is Err ==> final(self).ifgr_name == old(self).ifgr_name,
            final(self).ifgr_len == old(self).ifgr_len,
            final(self).ifgr_ifgru == old(self).ifgr_ifgru,
    {
        set_name(&mut self.ifgr_name, name)
    }

    pub fn get_name(&self) -> (r: Result<String, IfNameError>)
        ensures
            r is Ok <==> name_text(self.ifgr_name@) is Some,
            r matches Ok(s) ==> name_text(self.ifgr_name@) == Some(s@),
            r matches Err(e) ==> e == IfNameError::Malformed,
    {
        get_name(&self.ifgr_name)
    }

    /// A zeroed request naming the interface `name`.
    pub fn from_name(name: &str) -> (r: Result<ifgroupreq, IfNameError>)
        ensures
            r is Ok <==> from_name_outcome(name) is Ok,
            r matches Err(e) ==> from_name_outcome(name) == Err::<(), IfNameError>(e),
            r matches Ok(req) ==> {
                &&& req.ifgr_name@ == fresh_name(name)
                &&& req.ifgr_len == 0
                &&& req.ifgr_ifgru.ifgru_group@ == zeros(IFNAMSIZ as nat)
            },
    {
        match name_from_str(name) {
            Ok(buf) => {
                let req = ifgroupreq {
                    ifgr_name: buf,
                    ifgr_len: 0,
                    ifgr_ifgru: ifgr_ifgru { ifgru_group: [0u8; IFNAMSIZ] },
                };
                assert(req.ifgr_ifgru.ifgru_group@ =~= zeros(IFNAMSIZ as nat));
                Ok(req)
            },
            Err(e) => Err(e),
        }
    }
}

} // verus!
