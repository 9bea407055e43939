use vstd::prelude::*;

verus! {

pub const PD: u32 = 1;
pub const DSMPD: u32 = 4;
pub const POSTDIVPD: u32 = 8;
pub const VCOPD: u32 = 0x10;
pub const FRACPD: u32 = 0x20;

} // verus!
