use vstd::prelude::*;

verus! {

pub const CS: u32 = 0x000;
pub const RESULT: u32 = 0x004;
pub const FCS: u32 = 0x008;
pub const FIFO: u32 = 0x00C;
pub const DIV: u32 = 0x010;
pub const INTR: u32 = 0x014;
pub const INTE: u32 = 0x018;
pub const INTF: u32 = 0x01C;
pub const INTS: u32 = 0x020;

} // verus!
