use vstd::prelude::*;

verus! {

pub const WRITABLE: u32 = 1;
pub const READABLE: u32 = 2;
pub const ECC: u32 = 4;
pub const POR: u32 = 8;

} // verus!
