use vstd::prelude::*;

verus! {

pub const DATA_WIDTH_SHIFT: u32 = 0;
pub const DATA_WIDTH_MASK: u32 = 7;
pub const CHANNELS_SHIFT: u32 = 3;
pub const CHANNELS_MASK: u32 = 0x18;
pub const FORMAT_SHIFT: u32 = 5;
pub const FORMAT_MASK: u32 = 0x60;
pub const I2S: u32 = 0;
pub const LEFT_JUSTIFIED: u32 = 0x20;
pub const RIGHT_JUSTIFIED: u32 = 0x40;

} // verus!
