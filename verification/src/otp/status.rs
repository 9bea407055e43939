use vstd::prelude::*;

verus! {

pub const BUSY: u32 = 1;
pub const ECC_FAIL: u32 = 2;
pub const KEY_VALID: u32 = 4;
pub const LOCKED: u32 = 8;

} // verus!
