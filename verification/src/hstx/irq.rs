use vstd::prelude::*;

verus! {

pub const FIFO: u32 = 1;
pub const LINE: u32 = 2;
pub const VSYNC: u32 = 4;
pub const HSYNC: u32 = 8;

} // verus!
