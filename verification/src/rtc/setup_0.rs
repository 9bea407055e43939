use vstd::prelude::*;

verus! {

pub const SECOND_SHIFT: u32 = 0;
pub const SECOND_MASK: u32 = 0x3F;
pub const MINUTE_SHIFT: u32 = 6;
pub const MINUTE_MASK: u32 = 0xFC0;
pub const HOUR_SHIFT: u32 = 12;
pub const HOUR_MASK: u32 = 0x1F000;
pub const DAY_OF_WEEK_SHIFT: u32 = 24;
pub const DAY_OF_WEEK_MASK: u32 = 0x7000000;

} // verus!
