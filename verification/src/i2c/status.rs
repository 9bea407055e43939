use vstd::prelude::*;

verus! {

pub const ACTIVITY: u32 = 1;
pub const TFNF: u32 = 2;
pub const TFE: u32 = 4;
pub const RFNE: u32 = 8;
pub const RFF: u32 = 0x10;
pub const MST_ACTIVITY: u32 = 0x20;
pub const SLV_ACTIVITY: u32 = 0x40;

} // verus!
