use vstd::prelude::*;

verus! {

pub const LEVEL_SHIFT: u32 = 0;
pub const LEVEL_MASK: u32 = 0x3F;
pub const EMPTY: u32 = 0x100;
pub const FULL: u32 = 0x200;
pub const OVER: u32 = 0x400;
pub const UNDER: u32 = 0x800;

} // verus!
