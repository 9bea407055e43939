use vstd::prelude::*;

verus! {

pub const PENDING0: u32 = 0;
pub const PENDING1: u32 = 4;
pub const PENDING2: u32 = 8;
pub const PENDING3: u32 = 0xC;
pub const ENABLE0_BASE: u32 = 0x20;
pub const ENABLE1_BASE: u32 = 0x24;
pub const PRIORITY_BASE: u32 = 0x1000;
pub const THRESHOLD0: u32 = 0x2000;
pub const THRESHOLD1: u32 = 0x2010;
pub const CLAIM0: u32 = 0x2004;
pub const CLAIM1: u32 = 0x2014;

} // verus!
