use vstd::prelude::*;

verus! {

pub const DAY_SHIFT: u32 = 0;
pub const DAY_MASK: u32 = 0x1F;
pub const MONTH_SHIFT: u32 = 8;
pub const MONTH_MASK: u32 = 0xF00;
pub const YEAR_SHIFT: u32 = 12;
pub const YEAR_MASK: u32 = 0xFFF000;

} // verus!
