use vstd::prelude::*;

verus! {

pub const CS: u32 = 0;
pub const CS_SET: u32 = 4;
pub const CS_CLR: u32 = 8;
pub const IRQ: u32 = 0xC;
pub const IRQ_SET: u32 = 0x10;
pub const IRQ_CLR: u32 = 0x14;
pub const IRQE: u32 = 0x18;
pub const IRQE_SET: u32 = 0x1C;
pub const IRQE_CLR: u32 = 0x20;
pub const FIFOCFG: u32 = 0x24;
pub const FIFOSTAT: u32 = 0x28;
pub const FIFO: u32 = 0x2C;
pub const BIT: u32 = 0x30;
pub const BIT_SET: u32 = 0x34;
pub const BIT_CLR: u32 = 0x38;
pub const SLOW: u32 = 0x3C;
pub const SLOW_SET: u32 = 0x40;
pub const SLOW_CLR: u32 = 0x44;
pub const EXPAND: u32 = 0x48;
pub const EXPAND_SET: u32 = 0x4C;
pub const EXPAND_CLR: u32 = 0x50;
pub const VSYNC: u32 = 0x54;
pub const VSYNC_SET: u32 = 0x58;
pub const VSYNC_CLR: u32 = 0x5C;
pub const HSYNC: u32 = 0x60;
pub const HSYNC_SET: u32 = 0x64;
pub const HSYNC_CLR: u32 = 0x68;
pub const LINE: u32 = 0x6C;
pub const LINE_SET: u32 = 0x70;
pub const LINE_CLR: u32 = 0x74;
pub const LINE_VSYNC: u32 = 0x78;
pub const LINE_VSYNC_SET: u32 = 0x7C;
pub const LINE_VSYNC_CLR: u32 = 0x80;
pub const LINE_HSYNC: u32 = 0x84;
pub const LINE_HSYNC_SET: u32 = 0x88;
pub const LINE_HSYNC_CLR: u32 = 0x8C;
pub const LINE_FIRST: u32 = 0x90;
pub const LINE_FIRST_SET: u32 = 0x94;
pub const LINE_FIRST_CLR: u32 = 0x98;
pub const LINE_LAST: u32 = 0x9C;
pub const LINE_LAST_SET: u32 = 0xA0;
pub const LINE_LAST_CLR: u32 = 0xA4;
pub const SLOWEST: u32 = 0xA8;
pub const SLOWEST_SET: u32 = 0xAC;
pub const SLOWEST_CLR: u32 = 0xB0;
pub const GPOA: u32 = 0xB4;
pub const GPOA_SET: u32 = 0xB8;
pub const GPOA_CLR: u32 = 0xBC;
pub const GPOB: u32 = 0xC0;
pub const GPOB_SET: u32 = 0xC4;
pub const GPOB_CLR: u32 = 0xC8;

} // verus!
