use vstd::prelude::*;

verus! {

pub const RTC: u32 = 1;

} // verus!
