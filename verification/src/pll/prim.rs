use vstd::prelude::*;

verus! {

pub const POSTDIV1_SHIFT: u32 = 0;
pub const POSTDIV1_MASK: u32 = 7;
pub const POSTDIV2_SHIFT: u32 = 4;
pub const POSTDIV2_MASK: u32 = 0x70;

} // verus!
