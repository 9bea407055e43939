use vstd::prelude::*;

verus! {

pub const ASIC: u32 = 1;
pub const FPGA: u32 = 2;
pub const SIMULATION: u32 = 3;

} // verus!
