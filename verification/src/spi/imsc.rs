use vstd::prelude::*;

verus! {

pub const RORIM: u32 = 1;
pub const RTIM: u32 = 2;
pub const RXIM: u32 = 4;
pub const TXIM: u32 = 8;

} // verus!
