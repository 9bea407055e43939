use vstd::prelude::*;

verus! {

pub const LBM: u32 = 1;
pub const SSE: u32 = 2;
pub const MS: u32 = 4;
pub const SOD: u32 = 8;

} // verus!
