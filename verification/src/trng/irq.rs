use vstd::prelude::*;

verus! {

pub const READY: u32 = 1;
pub const ERROR: u32 = 2;

} // verus!
