use vstd::prelude::*;

verus! {

pub const TIMER0: u32 = 1;
pub const TIMER1: u32 = 2;
pub const TIMER2: u32 = 4;
pub const TIMER3: u32 = 8;
pub const GPIO0: u32 = 0x10;
pub const GPIO1: u32 = 0x20;
pub const GPIO2: u32 = 0x40;
pub const GPIO3: u32 = 0x80;
pub const PROC0: u32 = 0x100;
pub const PROC1: u32 = 0x200;
pub const BOD: u32 = 0x400;
pub const WAKE: u32 = 0x800;

} // verus!
