#![allow(non_camel_case_types)]

use vstd::prelude::*;

pub mod brcmd;
pub mod flags;
pub mod ifcontrol;
pub mod ifname;
pub mod ifstructs;
pub mod overlapped;
pub mod route;
pub mod tap_windows;
pub mod tuntap;

verus! {

} // verus!
