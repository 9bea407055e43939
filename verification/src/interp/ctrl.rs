use vstd::prelude::*;

verus! {

pub const SHIFT_SHIFT: u32 = 0;
pub const SHIFT_MASK: u32 = 0x1F;
pub const MASK_LSB_SHIFT: u32 = 5;
pub const MASK_LSB_MASK: u32 = 0x3E0;
pub const MASK_MSB_SHIFT: u32 = 10;
pub const MASK_MSB_MASK: u32 = 0x7C00;
pub const SIGNED: u32 = 0x8000;
pub const CROSS_INPUT: u32 = 0x10000;
pub const CROSS_RESULT: u32 = 0x20000;
pub const ADD_RAW: u32 = 0x40000;
pub const OVERF0: u32 = 0x80000;
pub const OVERF1: u32 = 0x100000;
pub const OVERF: u32 = 0x200000;
pub const BLEND: u32 = 0x800000;

} // verus!
