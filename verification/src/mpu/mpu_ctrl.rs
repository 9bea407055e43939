use vstd::prelude::*;

verus! {

pub const PRIVDEFENA: u32 = 4;
pub const HFNMIENA: u32 = 2;
pub const ENABLE: u32 = 1;

} // verus!
