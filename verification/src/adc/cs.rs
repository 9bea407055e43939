use vstd::prelude::*;

verus! {

pub const EN: u32 = 0x1;
pub const TS_EN: u32 = 0x2;
pub const START_ONCE: u32 = 0x4;
pub const START_MANY: u32 = 0x8;
pub const READY: u32 = 0x100;
pub const ERR: u32 = 0x200;
pub const ERR_STICKY: u32 = 0x400;
pub const AINSEL_MASK: u32 = 0x7000;
pub const AINSEL_SHIFT: u32 = 12;

} // verus!
