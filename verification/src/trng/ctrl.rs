use vstd::prelude::*;

verus! {

pub const ENABLE: u32 = 1;
pub const RESET: u32 = 2;
pub const START: u32 = 4;
pub const RESEED: u32 = 8;

} // verus!
