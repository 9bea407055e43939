use vstd::prelude::*;

verus! {

pub const DSS_MASK: u32 = 0xF;
pub const DSS_4BIT: u32 = 3;
pub const DSS_5BIT: u32 = 4;
pub const DSS_6BIT: u32 = 5;
pub const DSS_7BIT: u32 = 6;
pub const DSS_8BIT: u32 = 7;
pub const DSS_9BIT: u32 = 8;
pub const DSS_10BIT: u32 = 9;
pub const DSS_11BIT: u32 = 0xA;
pub const DSS_12BIT: u32 = 0xB;
pub const DSS_13BIT: u32 = 0xC;
pub const DSS_14BIT: u32 = 0xD;
pub const DSS_15BIT: u32 = 0xE;
pub const DSS_16BIT: u32 = 0xF;
pub const FRF_MASK: u32 = 0x30;
pub const FRF_MOTOROLA: u32 = 0;
pub const FRF_TI: u32 = 0x10;
pub const FRF_MICROWIRE: u32 = 0x20;
pub const SPO: u32 = 0x40;
pub const SPH: u32 = 0x80;
pub const SCR_MASK: u32 = 0xFF00;

} // verus!
