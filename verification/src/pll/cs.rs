use vstd::prelude::*;

verus! {

pub const REFDIV_SHIFT: u32 = 0;
pub const REFDIV_MASK: u32 = 0x3F;
pub const BYPASS: u32 = 0x100;
pub const LOCK: u32 = 0x80000000;

} // verus!
