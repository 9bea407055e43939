use vstd::prelude::*;

verus! {

pub const BUS_PRIORITY: u32 = 0;
pub const BUS_PRIORITY_ACK: u32 = 4;
pub const BUS_PRIORITY_PERF0: u32 = 8;
pub const BUS_PRIORITY_PERF1: u32 = 0xC;
pub const BUS_PRIORITY_PERF2: u32 = 0x10;
pub const BUS_PRIORITY_PERF3: u32 = 0x14;
pub const BUS_PRIORITY_PERF4: u32 = 0x18;
pub const BUS_PRIORITY_PERF5: u32 = 0x1C;
pub const BUS_PRIORITY_PERF6: u32 = 0x20;
pub const BUS_PRIORITY_PERF7: u32 = 0x24;
pub const BUS_PRIORITY_PERF8: u32 = 0x28;
pub const BUS_PRIORITY_PERF9: u32 = 0x2C;
pub const BUS_PRIORITY_PERF10: u32 = 0x30;
pub const BUS_PRIORITY_PERF11: u32 = 0x34;
pub const PERFCTR0: u32 = 0x38;
pub const PERFCTR1: u32 = 0x3C;
pub const PERFCTR2: u32 = 0x40;
pub const PERFCTR3: u32 = 0x44;
pub const PERFSEL0: u32 = 0x48;
pub const PERFSEL1: u32 = 0x4C;
pub const PERFSEL2: u32 = 0x50;
pub const PERFSEL3: u32 = 0x54;

} // verus!
