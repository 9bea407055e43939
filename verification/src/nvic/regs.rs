use vstd::prelude::*;

verus! {

pub const ISER0: u32 = 0;
pub const ISER1: u32 = 4;
pub const ISER2: u32 = 8;
pub const ISER3: u32 = 0xC;
pub const ICER0: u32 = 0x80;
pub const ICER1: u32 = 0x84;
pub const ICER2: u32 = 0x88;
pub const ICER3: u32 = 0x8C;
pub const ISPR0: u32 = 0x100;
pub const ISPR1: u32 = 0x104;
pub const ISPR2: u32 = 0x108;
pub const ISPR3: u32 = 0x10C;
pub const ICPR0: u32 = 0x180;
pub const ICPR1: u32 = 0x184;
pub const ICPR2: u32 = 0x188;
pub const ICPR3: u32 = 0x18C;
pub const IABR0: u32 = 0x200;
pub const IABR1: u32 = 0x204;
pub const IABR2: u32 = 0x208;
pub const IABR3: u32 = 0x20C;
pub const IPR0: u32 = 0x300;
pub const IPR1: u32 = 0x304;
pub const IPR2: u32 = 0x308;
pub const IPR3: u32 = 0x30C;
pub const IPR4: u32 = 0x310;
pub const IPR5: u32 = 0x314;
pub const IPR6: u32 = 0x318;
pub const IPR7: u32 = 0x31C;
pub const IPR8: u32 = 0x320;
pub const IPR9: u32 = 0x324;
pub const IPR10: u32 = 0x328;
pub const IPR11: u32 = 0x32C;
pub const IPR12: u32 = 0x330;
pub const IPR13: u32 = 0x334;
pub const IPR14: u32 = 0x338;
pub const IPR15: u32 = 0x33C;
pub const STIR: u32 = 0xE00;

} // verus!
