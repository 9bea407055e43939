use vstd::prelude::*;

verus! {

pub const NUMCOMP_SHIFT: u32 = 28;
pub const NUMCOMP_MASK: u32 = 0xF0000000;
pub const TRCEN: u32 = 0x1000;
pub const CYCCNTENA: u32 = 1;

} // verus!
