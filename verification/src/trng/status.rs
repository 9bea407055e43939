use vstd::prelude::*;

verus! {

pub const READY: u32 = 1;
pub const BUSY: u32 = 2;
pub const ERROR: u32 = 4;
pub const FIFO_EMPTY: u32 = 8;
pub const FIFO_FULL: u32 = 0x10;

} // verus!
