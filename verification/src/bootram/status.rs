use vstd::prelude::*;

verus! {

pub const ENABLED: u32 = 0x1;
pub const LOCKED: u32 = 0x2;
pub const PROTECTED: u32 = 0x4;

} // verus!
