use vstd::prelude::*;

verus! {

pub const CH0_READ_ADDR: u32 = 0;
pub const CH0_WRITE_ADDR: u32 = 4;
pub const CH0_TRANS_COUNT: u32 = 8;
pub const CH0_CTRL_TRIG: u32 = 0xC;
pub const CH0_AL1_CTRL: u32 = 0x10;
pub const CH0_AL1_READ_ADDR: u32 = 0x14;
pub const CH0_AL1_WRITE_ADDR: u32 = 0x18;
pub const CH0_AL1_TRANS_COUNT_TRIG: u32 = 0x1C;
pub const CH0_AL2_CTRL: u32 = 0x20;
pub const CH0_AL2_TRANS_COUNT: u32 = 0x24;
pub const CH0_AL2_READ_ADDR: u32 = 0x28;
pub const CH0_AL2_WRITE_ADDR_TRIG: u32 = 0x2C;
pub const CH0_AL3_CTRL: u32 = 0x30;
pub const CH3_AL3_WRITE_ADDR: u32 = 0x34;
pub const CH0_AL3_TRANS_COUNT: u32 = 0x38;
pub const CH0_AL3_READ_ADDR_TRIG: u32 = 0x3C;
pub const INTR: u32 = 0x400;
pub const INTE0: u32 = 0x404;
pub const INTF0: u32 = 0x408;
pub const INTS0: u32 = 0x40C;
pub const EN: u32 = 0x410;
pub const CTRL: u32 = 0x414;
pub const DEBUG0: u32 = 0x418;
pub const DEBUG1: u32 = 0x41C;
pub const CHAN_ABORT: u32 = 0x440;
pub const N_CHANNELS: u32 = 0x448;

} // verus!
