use vstd::prelude::*;

verus! {

pub const RTC_ENABLE: u32 = 1;
pub const RTC_LOAD: u32 = 2;
pub const FORCE_NOT_LEAP_YEAR: u32 = 4;

} // verus!
