use vstd::prelude::*;

verus! {

pub const TIMEHR: u32 = 0;
pub const TIMELR: u32 = 4;
pub const TIMERAWH: u32 = 8;
pub const TIMERAWL: u32 = 0xC;
pub const DBGPAUSE: u32 = 0x10;
pub const PAUSE: u32 = 0x14;
pub const LOCKED: u32 = 0x18;
pub const SOURCE: u32 = 0x1C;
pub const ALARM0: u32 = 0x20;
pub const ALARM1: u32 = 0x24;
pub const ALARM2: u32 = 0x28;
pub const ALARM3: u32 = 0x2C;
pub const ARMED: u32 = 0x30;
pub const TIMERAWH2: u32 = 0x34;
pub const TIMERAWL2: u32 = 0x38;
pub const TIMEHR2: u32 = 0x3C;
pub const TIMELR2: u32 = 0x40;
pub const INTR: u32 = 0x44;
pub const INTE: u32 = 0x48;
pub const INTF: u32 = 0x4C;
pub const INTS: u32 = 0x50;

} // verus!
