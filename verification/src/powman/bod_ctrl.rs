use vstd::prelude::*;

verus! {

pub const EN: u32 = 1;
pub const VSEL_SHIFT: u32 = 4;
pub const VSEL_MASK: u32 = 0xF0;

} // verus!
