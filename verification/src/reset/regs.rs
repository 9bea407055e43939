use vstd::prelude::*;

verus! {

pub const RESET: u32 = 0;
pub const WDSEL: u32 = 4;
pub const RESET_DONE: u32 = 8;
pub const RESET_DONE_TBMAN: u32 = 0xC;

} // verus!
