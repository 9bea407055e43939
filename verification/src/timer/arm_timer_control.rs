use vstd::prelude::*;

verus! {

pub const ENABLE: u32 = 0x80;
pub const MODE_16BIT: u32 = 0;
pub const MODE_23BIT: u32 = 2;
pub const INT_ENABLE: u32 = 0x20;
pub const PRESCALE_1: u32 = 0;
pub const PRESCALE_16: u32 = 4;
pub const PRESCALE_256: u32 = 8;

} // verus!
