use vstd::prelude::*;

verus! {

pub const CTRL: u32 = 0;
pub const REMAP: u32 = 4;
pub const COMP0: u32 = 8;
pub const COMP1: u32 = 0xC;
pub const COMP2: u32 = 0x10;
pub const COMP3: u32 = 0x14;
pub const COMP4: u32 = 0x18;
pub const COMP5: u32 = 0x1C;
pub const COMP6: u32 = 0x20;
pub const COMP7: u32 = 0x24;
pub const LAR: u32 = 0xFB0;
pub const LSR: u32 = 0xFB4;

} // verus!
