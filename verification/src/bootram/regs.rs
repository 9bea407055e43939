use vstd::prelude::*;

verus! {

pub const DATA_START: u32 = 0x000;
pub const DATA_END: u32 = 0x1FFC;
pub const CTRL: u32 = 0x2000;
pub const STATUS: u32 = 0x2004;
pub const LOCK: u32 = 0x2008;

} // verus!
