use vstd::prelude::*;

verus! {

pub const THRESH_SHIFT: u32 = 0;
pub const THRESH_MASK: u32 = 0x3F;
pub const DREQ_SHIFT: u32 = 8;
pub const DREQ_MASK: u32 = 0x3F00;

} // verus!
