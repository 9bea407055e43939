use vstd::prelude::*;

verus! {

pub const TENMS_SHIFT: u32 = 0;
pub const TENMS_MASK: u32 = 0xFFFFFF;
pub const SKEW: u32 = 0x40000000;
pub const NOREF: u32 = 0x80000000;

} // verus!
