use vstd::prelude::*;

verus! {

pub const PPB: u32 = 0xE0000000;
pub const DWT: u32 = 0xE0001000;
pub const FPB: u32 = 0xE0002000;
pub const ITM: u32 = 0xE0000000;
pub const TPIU: u32 = 0xE0040000;
pub const ETM: u32 = 0xE0041000;
pub const CTI: u32 = 0xE0042000;
pub const DEBUG: u32 = 0xE0050000;

} // verus!
