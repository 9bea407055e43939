use vstd::prelude::*;

verus! {

pub const THRESH_MASK: u32 = 0x0F;
pub const EN: u32 = 0x100;
pub const ERR: u32 = 0x400;
pub const FULL: u32 = 0x1_0000;
pub const EMPTY: u32 = 0x2_0000;
pub const LEVEL_MASK: u32 = 0x0F00_0000;
pub const LEVEL_SHIFT: u32 = 24;

} // verus!
