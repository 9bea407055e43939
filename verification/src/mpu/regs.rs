use vstd::prelude::*;

verus! {

pub const TYPE: u32 = 0;
pub const CTRL: u32 = 4;
pub const RNR: u32 = 8;
pub const RBAR: u32 = 0xC;
pub const RLAR: u32 = 0x10;
pub const RBAR_A1: u32 = 0x14;
pub const RLAR_A1: u32 = 0x18;
pub const RBAR_A2: u32 = 0x1C;
pub const RLAR_A2: u32 = 0x20;
pub const RBAR_A3: u32 = 0x24;
pub const RLAR_A3: u32 = 0x28;
pub const MAIR0: u32 = 0x30;
pub const MAIR1: u32 = 0x34;

} // verus!
