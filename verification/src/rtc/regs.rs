use vstd::prelude::*;

verus! {

pub const CTRL: u32 = 0;
pub const INTS: u32 = 4;
pub const INTE: u32 = 8;
pub const INTF: u32 = 0xC;
pub const SETUP_0: u32 = 0x10;
pub const SETUP_1: u32 = 0x14;
pub const SETUP_2: u32 = 0x18;
pub const SETUP_3: u32 = 0x1C;
pub const RTC_0: u32 = 0x20;
pub const RTC_1: u32 = 0x24;
pub const RTC_2: u32 = 0x28;
pub const RTC_3: u32 = 0x2C;
pub const IRQ_SETUP_0: u32 = 0x30;
pub const IRQ_SETUP_1: u32 = 0x34;
pub const IRQ_SETUP_2: u32 = 0x38;
pub const IRQ_SETUP_3: u32 = 0x3C;

} // verus!
