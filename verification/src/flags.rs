//! Flag sets of the interface, tun/tap and routing interfaces, as sets of bits.
//!
//! Each flag is an associated function named like the kernel constant, so that
//! `flags.contains(IfFlags::IFF_UP())` reads as the C code does.
#![allow(non_snake_case)]

use vstd::prelude::*;

verus! {

/// Every bit that `IfFlags` names (`IFF_UP` up to `IFF_DYNAMIC`).
pub const IFF_ALL_BITS: i32 = 0xffff;

/// Interface flags (`IFF_*` of `<net/if.h>`).
#[derive(Debug, Clone, Copy, PartialEq, Eq, Structural)]
pub struct IfFlags {
    pub bits: i32,
}

impl IfFlags {
    /// The flags of `bits` that this type names; the other bits are dropped.
    pub fn from_bits_truncate(bits: i32) -> (r: IfFlags)
        ensures
            r.bits == bits & IFF_ALL_BITS,
    {
        IfFlags { bits: bits & IFF_ALL_BITS }
    }

    /// The empty set.
    pub fn empty() -> (r: IfFlags)
        ensures
            r.bits == 0,
    {
        IfFlags { bits: 0 }
    }

    pub fn bits(&self) -> (r: i32)
        ensures
            r == self.bits,
    {
        self.bits
    }

    /// Whether every flag of `other` is set in `self`.
    pub fn contains(&self, other: IfFlags) -> (r: bool)
        ensures
            r == (self.bits & other.bits == other.bits),
    {
        self.bits & other.bits == other.bits
    }

    /// Sets the flags of `other`.
    pub fn insert(&mut self, other: IfFlags)
        ensures
            final(self).bits == old(self).bits | other.bits,
    {
        self.bits = self.bits | other.bits;
    }

    /// Clears the flags of `other`.
    pub fn remove(&mut self, other: IfFlags)
        ensures
            final(self).bits == old(self).bits & !other.bits,
    {
        self.bits = self.bits & !other.bits;
    }

    /// Sets the flags of `other` where `value` holds, clears them otherwise.
    pub fn set(&mut self, other: IfFlags, value: bool)
        ensures
            value ==> final(self).bits == old(self).bits | other.bits,
            !value ==> final(self).bits == old(self).bits & !other.bits,
    {
        if value {
            self.insert(other);
        } else {
            self.remove(other);
        }
    }

    pub fn IFF_UP() -> (r: IfFlags)
        ensures
            r.bits == 0x1,
    {
        IfFlags { bits: 0x1 }
    }

    pub fn IFF_BROADCAST() -> (r: IfFlags)
        ensures
            r.bits == 0x2,
    {
        IfFlags { bits: 0x2 }
    }

    pub fn IFF_DEBUG() -> (r: IfFlags)
        ensures
            r.bits == 0x4,
    {
        IfFlags { bits: 0x4 }
    }

    pub fn IFF_LOOPBACK() -> (r: IfFlags)
        ensures
            r.bits == 0x8,
    {
        IfFlags { bits: 0x8 }
    }

    pub fn IFF_POINTOPOINT() -> (r: IfFlags)
        ensures
            r.bits == 0x10,
    {
        IfFlags { bits: 0x10 }
    }

    pub fn IFF_NOTRAILERS() -> (r: IfFlags)
        ensures
            r.bits == 0x20,
    {
        IfFlags { bits: 0x20 }
    }

    pub fn IFF_RUNNING() -> (r: IfFlags)
        ensures
            r.bits == 0x40,
    {
        IfFlags { bits: 0x40 }
    }

    pub fn IFF_NOARP() -> (r: IfFlags)
        ensures
            r.bits == 0x80,
    {
        IfFlags { bits: 0x80 }
    }

    pub fn IFF_PROMISC() -> (r: IfFlags)
        ensures
            r.bits == 0x100,
    {
        IfFlags { bits: 0x100 }
    }

    pub fn IFF_ALLMULTI() -> (r: IfFlags)
        ensures
            r.bits == 0x200,
    {
        IfFlags { bits: 0x200 }
    }

    pub fn IFF_MASTER() -> (r: IfFlags)
        ensures
            r.bits == 0x400,
    {
        IfFlags { bits: 0x400 }
    }

    pub fn IFF_SLAVE() -> (r: IfFlags)
        ensures
            r.bits == 0x800,
    {
        IfFlags { bits: 0x800 }
    }

    pub fn IFF_MULTICAST() -> (r: IfFlags)
        ensures
            r.bits == 0x1000,
    {
        IfFlags { bits: 0x1000 }
    }

    pub fn IFF_PORTSEL() -> (r: IfFlags)
        ensures
            r.bits == 0x2000,
    {
        IfFlags { bits: 0x2000 }
    }

    pub fn IFF_AUTOMEDIA() -> (r: IfFlags)
        ensures
            r.bits == 0x4000,
    {
        IfFlags { bits: 0x4000 }
    }

    pub fn IFF_DYNAMIC() -> (r: IfFlags)
        ensures
            r.bits == 0x8000,
    {
        IfFlags { bits: 0x8000 }
    }
}

/// Flags of the tun/tap driver's `TUNSETIFF` request (`<linux/if_tun.h>`).
#[derive(Debug, Clone, Copy, PartialEq, Eq, Structural)]
pub struct TunTapFlags {
    pub bits: i16,
}

impl TunTapFlags {
    pub fn bits(&self) -> (r: i16)
        ensures
            r == self.bits,
    {
        self.bits
    }

    pub fn contains(&self, other: TunTapFlags) -> (r: bool)
        ensures
            r == (self.bits & other.bits == other.bits),
    {
        self.bits & other.bits == other.bits
    }

    pub fn insert(&mut self, other: TunTapFlags)
        ensures
            final(self).bits == old(self).bits | other.bits,
    {
        self.bits = self.bits | other.bits;
    }

    pub fn IFF_TUN() -> (r: TunTapFlags)
        ensures
            r.bits == 0x0001,
    {
        TunTapFlags { bits: 0x0001 }
    }

    pub fn IFF_TAP() -> (r: TunTapFlags)
        ensures
            r.bits == 0x0002,
    {
        TunTapFlags { bits: 0x0002 }
    }

    pub fn IFF_NAPI() -> (r: TunTapFlags)
        ensures
            r.bits == 0x0010,
    {
        TunTapFlags { bits: 0x0010 }
    }

    pub fn IFF_NAPI_FRAGS() -> (r: TunTapFlags)
        ensures
            r.bits == 0x0020,
    {
        TunTapFlags { bits: 0x0020 }
    }

    pub fn IFF_NO_PI() -> (r: TunTapFlags)
        ensures
            r.bits == 0x1000,
    {
        TunTapFlags { bits: 0x1000 }
    }

    /// This flag has no real effect.
    pub fn IFF_ONE_QUEUE() -> (r: TunTapFlags)
        ensures
            r.bits == 0x2000,
    {
        TunTapFlags { bits: 0x2000 }
    }

    pub fn IFF_VNET_HDR() -> (r: TunTapFlags)
        ensures
            r.bits == 0x4000,
    {
        TunTapFlags { bits: 0x4000 }
    }

    /// `0x8000`, the sign bit of the 16-bit flag word.
    pub fn IFF_TUN_EXCL() -> (r: TunTapFlags)
        ensures
            r.bits == i16::MIN,
    {
        TunTapFlags { bits: i16::MIN }
    }

    pub fn IFF_MULTI_QUEUE() -> (r: TunTapFlags)
        ensures
            r.bits == 0x0100,
    {
        TunTapFlags { bits: 0x0100 }
    }

    pub fn IFF_ATTACH_QUEUE() -> (r: TunTapFlags)
        ensures
            r.bits == 0x0200,
    {
        TunTapFlags { bits: 0x0200 }
    }

    pub fn IFF_DETACH_QUEUE() -> (r: TunTapFlags)
        ensures
            r.bits == 0x0400,
    {
        TunTapFlags { bits: 0x0400 }
    }

    /// Read-only flag.
    pub fn IFF_PERSIST() -> (r: TunTapFlags)
        ensures
            r.bits == 0x0800,
    {
        TunTapFlags { bits: 0x0800 }
    }

    pub fn IFF_NOFILTER() -> (r: TunTapFlags)
        ensures
            r.bits == 0x1000,
    {
        TunTapFlags { bits: 0x1000 }
    }
}

} // verus!
