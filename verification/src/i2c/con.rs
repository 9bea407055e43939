use vstd::prelude::*;

verus! {

pub const MASTER_MODE: u32 = 1;
pub const SPEED_STD: u32 = 2;
pub const SPEED_FAST: u32 = 4;
pub const SPEED_HIGH: u32 = 6;
pub const SPEED_MASK: u32 = 6;
pub const IC_10BITADDR_SLAVE: u32 = 8;
pub const IC_10BITADDR_MASTER: u32 = 0x10;
pub const IC_RESTART_EN: u32 = 0x20;
pub const IC_SLAVE_DISABLE: u32 = 0x40;
pub const STOP_DET_IFADDRESSED: u32 = 0x80;
pub const TX_EMPTY_CTRL: u32 = 0x100;
pub const RX_FIFO_FULL_HLD_CTRL: u32 = 0x200;

} // verus!
