use vstd::prelude::*;

verus! {

pub const TFE: u32 = 1;
pub const TNF: u32 = 2;
pub const RNE: u32 = 4;
pub const RFF: u32 = 8;
pub const BSY: u32 = 0x10;

} // verus!
