use vstd::prelude::*;

verus! {

pub const GPIO0_STATUS: u32 = 0;
pub const GPIO0_CTRL: u32 = 4;
pub const GPIO1_STATUS: u32 = 8;
pub const GPIO1_CTRL: u32 = 0xC;
pub const GPIO_STATUS_OFFSET: u32 = 0;
pub const GPIO_CTRL_OFFSET: u32 = 4;
pub const GPIO_STRIDE: u32 = 8;
pub const INTR0: u32 = 0xF0;
pub const INTR1: u32 = 0xF4;
pub const INTR2: u32 = 0xF8;
pub const INTR3: u32 = 0xFC;
pub const PROC0_INTE0: u32 = 0x100;
pub const PROC0_INTE1: u32 = 0x104;
pub const PROC0_INTE2: u32 = 0x108;
pub const PROC0_INTE3: u32 = 0x10C;
pub const PROC0_INTF0: u32 = 0x110;
pub const PROC0_INTF1: u32 = 0x114;
pub const PROC0_INTF2: u32 = 0x118;
pub const PROC0_INTF3: u32 = 0x11C;
pub const PROC0_INTS0: u32 = 0x120;
pub const PROC0_INTS1: u32 = 0x124;
pub const PROC0_INTS2: u32 = 0x128;
pub const PROC0_INTS3: u32 = 0x12C;
pub const PROC1_INTE0: u32 = 0x130;
pub const PROC1_INTE1: u32 = 0x134;
pub const PROC1_INTE2: u32 = 0x138;
pub const PROC1_INTE3: u32 = 0x13C;
pub const PROC1_INTF0: u32 = 0x140;
pub const PROC1_INTF1: u32 = 0x144;
pub const PROC1_INTF2: u32 = 0x148;
pub const PROC1_INTF3: u32 = 0x14C;
pub const PROC1_INTS0: u32 = 0x150;
pub const PROC1_INTS1: u32 = 0x154;
pub const PROC1_INTS2: u32 = 0x158;
pub const PROC1_INTS3: u32 = 0x15C;
pub const DORMANT_WAKE_INTE0: u32 = 0x160;
pub const DORMANT_WAKE_INTE1: u32 = 0x164;
pub const DORMANT_WAKE_INTE2: u32 = 0x168;
pub const DORMANT_WAKE_INTE3: u32 = 0x16C;
pub const DORMANT_WAKE_INTF0: u32 = 0x170;
pub const DORMANT_WAKE_INTF1: u32 = 0x174;
pub const DORMANT_WAKE_INTF2: u32 = 0x178;
pub const DORMANT_WAKE_INTF3: u32 = 0x17C;
pub const DORMANT_WAKE_INTS0: u32 = 0x180;
pub const DORMANT_WAKE_INTS1: u32 = 0x184;
pub const DORMANT_WAKE_INTS2: u32 = 0x188;
pub const DORMANT_WAKE_INTS3: u32 = 0x18C;
pub const IO_BANK0_BASE: u32 = 0x40014000;
pub const IO_BANK0_STATUS_OFFSET: u32 = 0;
pub const IO_BANK0_CTRL_OFFSET: u32 = 4;
pub const IO_QSPI_BASE: u32 = 0x40018000;
pub const PADS_BANK0_BASE: u32 = 0x40020000;
pub const PADS_QSPI_BASE: u32 = 0x40024000;

} // verus!
