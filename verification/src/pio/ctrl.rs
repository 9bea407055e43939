use vstd::prelude::*;

verus! {

pub const SM_ENABLE_MASK: u32 = 0xF;
pub const SM_RESTART_MASK: u32 = 0xF0;
pub const CLKDIV_RESTART_MASK: u32 = 0xF00;

} // verus!
