use vstd::prelude::*;

verus! {

pub const BUSY: u32 = 1;
pub const ERROR: u32 = 2;
pub const READY: u32 = 4;

} // verus!
