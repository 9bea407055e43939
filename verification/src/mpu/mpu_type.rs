use vstd::prelude::*;

verus! {

pub const IREGION_SHIFT: u32 = 16;
pub const IREGION_MASK: u32 = 0xFF0000;
pub const DREGION_SHIFT: u32 = 8;
pub const DREGION_MASK: u32 = 0xFF00;
pub const SEPARATE: u32 = 1;

} // verus!
