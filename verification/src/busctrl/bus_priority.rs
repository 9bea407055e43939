use vstd::prelude::*;

verus! {

pub const PROC0_SHIFT: u32 = 0;
pub const PROC0_MASK: u32 = 0xFF;
pub const PROC1_SHIFT: u32 = 8;
pub const PROC1_MASK: u32 = 0xFF00;
pub const DMA_R_SHIFT: u32 = 16;
pub const DMA_R_MASK: u32 = 0xFF0000;
pub const DMA_W_SHIFT: u32 = 24;
pub const DMA_W_MASK: u32 = 0xFF000000;

} // verus!
