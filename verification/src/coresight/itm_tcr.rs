use vstd::prelude::*;

verus! {

pub const BUSY: u32 = 0x800000;
pub const ATBID_SHIFT: u32 = 16;
pub const ATBID_MASK: u32 = 0x7F0000;
pub const TXENA: u32 = 1;

} // verus!
