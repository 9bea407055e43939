use vstd::prelude::*;

verus! {

pub const CTRL: u32 = 0;
pub const STATUS: u32 = 4;
pub const DATA: u32 = 8;
pub const INTEN: u32 = 0xC;
pub const INTSTAT: u32 = 0x10;
pub const RND_SRC_EN: u32 = 0x14;
pub const SAMPLE_CNT: u32 = 0x18;

} // verus!
