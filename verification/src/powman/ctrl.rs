use vstd::prelude::*;

verus! {

pub const SLEEP: u32 = 1;
pub const LOWPWR: u32 = 2;
pub const DEEPSLEEP: u32 = 4;
pub const DBG_FORCE: u32 = 8;
pub const WAKE_EN: u32 = 0x10;
pub const TIMER_EN: u32 = 0x20;
pub const LPOSC_EN: u32 = 0x40;
pub const BOD_EN: u32 = 0x80;

} // verus!
