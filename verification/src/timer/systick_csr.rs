use vstd::prelude::*;

verus! {

pub const ENABLE: u32 = 1;
pub const TICKINT: u32 = 2;
pub const CLKSOURCE: u32 = 4;
pub const COUNTFLAG: u32 = 0x10000;

} // verus!
