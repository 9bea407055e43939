use vstd::prelude::*;

verus! {

pub const CTRL: u32 = 0;
pub const CTRL_SET: u32 = 4;
pub const CTRL_CLR: u32 = 8;
pub const STATUS: u32 = 0xC;
pub const IRQ: u32 = 0x10;
pub const IRQ_SET: u32 = 0x14;
pub const IRQ_CLR: u32 = 0x18;
pub const IRQE: u32 = 0x1C;
pub const IRQE_SET: u32 = 0x20;
pub const IRQE_CLR: u32 = 0x24;
pub const TIMER0: u32 = 0x28;
pub const TIMER1: u32 = 0x2C;
pub const TIMER2: u32 = 0x30;
pub const TIMER3: u32 = 0x34;
pub const TIMER0_ALARM: u32 = 0x38;
pub const TIMER1_ALARM: u32 = 0x3C;
pub const TIMER2_ALARM: u32 = 0x40;
pub const TIMER3_ALARM: u32 = 0x44;
pub const VREG_CTRL: u32 = 0x48;
pub const VREG_CTRL_SET: u32 = 0x4C;
pub const VREG_CTRL_CLR: u32 = 0x50;
pub const BOD_CTRL: u32 = 0x54;
pub const BOD_CTRL_SET: u32 = 0x58;
pub const BOD_CTRL_CLR: u32 = 0x5C;
pub const LPOSC_CTRL: u32 = 0x60;
pub const LPOSC_CTRL_SET: u32 = 0x64;
pub const LPOSC_CTRL_CLR: u32 = 0x68;
pub const LPOSC_FREQ: u32 = 0x6C;
pub const DBG_FORCE: u32 = 0x70;
pub const DBG_FORCE_SET: u32 = 0x74;
pub const DBG_FORCE_CLR: u32 = 0x78;
pub const POW_READY: u32 = 0x7C;
pub const POW_COUNT: u32 = 0x80;
pub const POW_SEQ: u32 = 0x84;
pub const POW_SEQ_SET: u32 = 0x88;
pub const POW_SEQ_CLR: u32 = 0x8C;
pub const GPIO0: u32 = 0x90;
pub const GPIO1: u32 = 0x94;
pub const GPIO2: u32 = 0x98;
pub const GPIO3: u32 = 0x9C;
pub const GPIO_WDSEL: u32 = 0xA0;
pub const GPIO_WDSEL_SET: u32 = 0xA4;
pub const GPIO_WDSEL_CLR: u32 = 0xA8;
pub const GPIO_WAKE: u32 = 0xAC;
pub const GPIO_WAKE_SET: u32 = 0xB0;
pub const GPIO_WAKE_CLR: u32 = 0xB4;
pub const PROC0_WAKE: u32 = 0xB8;
pub const PROC0_WAKE_SET: u32 = 0xBC;
pub const PROC0_WAKE_CLR: u32 = 0xC0;
pub const PROC1_WAKE: u32 = 0xC4;
pub const PROC1_WAKE_SET: u32 = 0xC8;
pub const PROC1_WAKE_CLR: u32 = 0xCC;
pub const PROC0_CONFIG: u32 = 0xD0;
pub const PROC0_CONFIG_SET: u32 = 0xD4;
pub const PROC0_CONFIG_CLR: u32 = 0xD8;
pub const PROC1_CONFIG: u32 = 0xDC;
pub const PROC1_CONFIG_SET: u32 = 0xE0;
pub const PROC1_CONFIG_CLR: u32 = 0xE4;

} // verus!
