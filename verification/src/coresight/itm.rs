use vstd::prelude::*;

verus! {

pub const STIM0: u32 = 0;
pub const STIM255: u32 = 0x3FC;
pub const TER: u32 = 0xE00;
pub const TPR: u32 = 0xE40;
pub const TCR: u32 = 0xE80;
pub const LAR: u32 = 0xFB0;
pub const LSR: u32 = 0xFB4;

} // verus!
