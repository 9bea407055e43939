use vstd::prelude::*;

verus! {

pub const RP2350: u32 = 0x2350;
pub const REVISION_SHIFT: u32 = 0;
pub const REVISION_MASK: u32 = 0xF;

} // verus!
