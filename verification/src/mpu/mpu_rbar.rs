use vstd::prelude::*;

verus! {

pub const ADDR_SHIFT: u32 = 5;
pub const ADDR_MASK: u32 = 0xFFFFE0;
pub const SH_SHIFT: u32 = 3;
pub const SH_MASK: u32 = 0x18;
pub const AP_SHIFT: u32 = 1;
pub const AP_MASK: u32 = 6;
pub const XN: u32 = 1;

} // verus!
