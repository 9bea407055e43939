use vstd::prelude::*;

verus! {

pub const START: u32 = 1;
pub const RESET: u32 = 2;
pub const DOUBLE_SHA: u32 = 4;
pub const BIG_ENDIAN: u32 = 8;

} // verus!
