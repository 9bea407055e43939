use vstd::prelude::*;

verus! {

pub const CS: u32 = 0;
pub const PWR: u32 = 4;
pub const FBDIV_INT: u32 = 8;
pub const FBDIV_FRAC: u32 = 0xC;
pub const PRIM: u32 = 0x10;
pub const PRIM2: u32 = 0x14;

} // verus!
