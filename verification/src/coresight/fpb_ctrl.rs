use vstd::prelude::*;

verus! {

pub const REV_SHIFT: u32 = 28;
pub const REV_MASK: u32 = 0xF0000000;
pub const NUM_CODE_SHIFT: u32 = 8;
pub const NUM_CODE_MASK: u32 = 0x700;
pub const NUM_LIT_SHIFT: u32 = 4;
pub const NUM_LIT_MASK: u32 = 0xF0;
pub const KEY: u32 = 2;
pub const ENABLE: u32 = 1;

} // verus!
