use vstd::prelude::*;

verus! {

pub const APB_CONTESTED: u32 = 0;
pub const APB: u32 = 1;
pub const FASTPERIPH: u32 = 2;
pub const SRAM5: u32 = 3;
pub const SRAM4: u32 = 4;
pub const SRAM3: u32 = 5;
pub const SRAM2: u32 = 6;
pub const SRAM1: u32 = 7;
pub const SRAM0: u32 = 8;
pub const XIP_MAIN: u32 = 9;
pub const ROM: u32 = 0xA;

} // verus!
