use vstd::prelude::*;

verus! {

pub const ADDR_SHIFT: u32 = 5;
pub const ADDR_MASK: u32 = 0xFFFFE0;
pub const ATTRINDX_SHIFT: u32 = 1;
pub const ATTRINDX_MASK: u32 = 0xE;
pub const EN: u32 = 1;

} // verus!
