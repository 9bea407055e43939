use vstd::prelude::*;

verus! {

pub const CTRL: u32 = 0;
pub const CYCCNT: u32 = 4;
pub const CPICNT: u32 = 8;
pub const EXCCNT: u32 = 0xC;
pub const SLEEPCNT: u32 = 0x10;
pub const LSUCNT: u32 = 0x14;
pub const FOLDCNT: u32 = 0x18;
pub const PCSR: u32 = 0x1C;
pub const COMP0: u32 = 0x20;
pub const MASK0: u32 = 0x24;
pub const FUNCTION0: u32 = 0x28;
pub const COMP1: u32 = 0x30;
pub const MASK1: u32 = 0x34;
pub const FUNCTION1: u32 = 0x38;
pub const COMP2: u32 = 0x40;
pub const MASK2: u32 = 0x44;
pub const FUNCTION2: u32 = 0x48;
pub const COMP3: u32 = 0x50;
pub const MASK3: u32 = 0x54;
pub const FUNCTION3: u32 = 0x58;

} // verus!
