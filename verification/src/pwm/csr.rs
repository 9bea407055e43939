use vstd::prelude::*;

verus! {

pub const EN: u32 = 1;
pub const MODE_FREE: u32 = 0;
pub const MODE_HIGH: u32 = 2;
pub const MODE_LOW: u32 = 4;
pub const MODE_MASK: u32 = 6;
pub const PH_CORRECT: u32 = 8;
pub const A_INV: u32 = 0x10;
pub const B_INV: u32 = 0x20;
pub const DIVMODE_DIV: u32 = 0;
pub const DIVMODE_FALL: u32 = 0x40;
pub const DIVMODE_RISE: u32 = 0x80;
pub const DIVMODE_MASK: u32 = 0xC0;

} // verus!
