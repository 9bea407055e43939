use vstd::prelude::*;

verus! {

pub const CTRL: u32 = 0;
pub const FSTAT: u32 = 4;
pub const FDEBUG: u32 = 8;
pub const FLEVEL: u32 = 0xC;
pub const TXF0: u32 = 0x10;
pub const TXF1: u32 = 0x14;
pub const TXF2: u32 = 0x18;
pub const TXF3: u32 = 0x1C;
pub const RXF0: u32 = 0x20;
pub const RXF1: u32 = 0x24;
pub const RXF2: u32 = 0x28;
pub const RXF3: u32 = 0x2C;
pub const IRQ: u32 = 0x30;
pub const IRQ_FORCE: u32 = 0x34;
pub const INPUT_SYNC_BYPASS: u32 = 0x38;
pub const DBG_PADOUT: u32 = 0x3C;
pub const DBG_PADOE: u32 = 0x40;
pub const DBG_CFGINFO: u32 = 0x44;
pub const INSTR_MEM0: u32 = 0x48;
pub const SM0_CLKDIV: u32 = 0xC8;
pub const SM0_EXECCTRL: u32 = 0xCC;
pub const SM0_SHIFTCTRL: u32 = 0xD0;
pub const SM0_ADDR: u32 = 0xD4;
pub const SM0_INSTR: u32 = 0xD8;
pub const SM0_PINCTRL: u32 = 0xDC;
pub const SM1_CLKDIV: u32 = 0xE0;
pub const SM2_CLKDIV: u32 = 0xF8;
pub const SM3_CLKDIV: u32 = 0x110;

} // verus!
