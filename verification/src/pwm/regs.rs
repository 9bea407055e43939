use vstd::prelude::*;

verus! {

pub const CH0_CSR: u32 = 0;
pub const CH0_DIV: u32 = 4;
pub const CH0_CTR: u32 = 8;
pub const CH0_CC: u32 = 0xC;
pub const CH0_TOP: u32 = 0x10;
pub const EN: u32 = 0xA0;
pub const INTR: u32 = 0xA4;
pub const INTE: u32 = 0xA8;
pub const INTF: u32 = 0xAC;
pub const INTS: u32 = 0xB0;

} // verus!
