use vstd::prelude::*;

verus! {

pub const SLEEPING: u32 = 1;
pub const LOWPWR: u32 = 2;
pub const DEEPSLEEP: u32 = 4;
pub const WAKE_PENDING: u32 = 8;
pub const TIMER0_ALARM: u32 = 0x10;
pub const TIMER1_ALARM: u32 = 0x20;
pub const TIMER2_ALARM: u32 = 0x40;
pub const TIMER3_ALARM: u32 = 0x80;
pub const BOD: u32 = 0x100;
pub const VREG_OK: u32 = 0x200;
pub const LPOSC_OK: u32 = 0x400;

} // verus!
