use vstd::prelude::*;

verus! {

pub const ENABLE: u32 = 0x1;
pub const CLEAR: u32 = 0x2;
pub const PROTECT: u32 = 0x4;

} // verus!
