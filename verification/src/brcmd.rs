//! Commands of FreeBSD's bridge driver (`SIOCSDRVSPEC` on a bridge).
use vstd::prelude::*;

verus! {

pub const BRDGADD: u64 = 0;
pub const BRDGDEL: u64 = 1;
pub const BRDGGIFFLGS: u64 = 2;
pub const BRDGSIFFLGS: u64 = 3;
pub const BRDGSCACHE: u64 = 4;
pub const BRDGGCACHE: u64 = 5;
pub const BRDGGIFS: u64 = 6;
pub const BRDGRTS: u64 = 7;
pub const BRDGSADDR: u64 = 8;
pub const BRDGSTO: u64 = 9;
pub const BRDGGTO: u64 = 10;
pub const BRDGDADDR: u64 = 11;
pub const BRDGFLUSH: u64 = 12;
pub const BRDGGPRI: u64 = 13;
pub const BRDGSPRI: u64 = 14;
pub const BRDGGHT: u64 = 15;
pub const BRDGSHT: u64 = 16;
pub const BRDGGFD: u64 = 17;
pub const BRDGSFD: u64 = 18;
pub const BRDGGMA: u64 = 19;
pub const BRDGSMA: u64 = 20;
pub const BRDGSIFPRIO: u64 = 21;
pub const BRDGSIFCOST: u64 = 22;
pub const BRDGADDS: u64 = 23;
pub const BRDGDELS: u64 = 24;
pub const BRDGPARAM: u64 = 25;
pub const BRDGGRTE: u64 = 26;
pub const BRDGGIFSSTP: u64 = 27;
pub const BRDGSPROTO: u64 = 28;
pub const BRDGSTXHC: u64 = 29;
pub const BRDGSIFAMAX: u64 = 30;

} // verus!
