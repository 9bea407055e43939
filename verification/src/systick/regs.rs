use vstd::prelude::*;

verus! {

pub const CSR: u32 = 0;
pub const RVR: u32 = 4;
pub const CVR: u32 = 8;
pub const CALIB: u32 = 0xC;

} // verus!
