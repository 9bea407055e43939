use vstd::prelude::*;

verus! {

pub const CTRL: u32 = 0;
pub const STATUS: u32 = 4;
pub const WDATA: u32 = 8;
pub const SUM0: u32 = 0xC;
pub const SUM1: u32 = 0x10;
pub const SUM2: u32 = 0x14;
pub const SUM3: u32 = 0x18;
pub const SUM4: u32 = 0x1C;
pub const SUM5: u32 = 0x20;
pub const SUM6: u32 = 0x24;
pub const SUM7: u32 = 0x28;

} // verus!
