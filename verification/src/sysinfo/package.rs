use vstd::prelude::*;

verus! {

pub const QFN_60: u32 = 1;
pub const QFN_80: u32 = 2;
pub const WLCSPI: u32 = 3;

} // verus!
