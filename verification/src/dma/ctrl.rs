use vstd::prelude::*;

verus! {

pub const EN: u32 = 1;
pub const HIGH_PRIORITY: u32 = 2;
pub const DATA_SIZE_SHIFT: u32 = 2;
pub const DATA_SIZE_MASK: u32 = 0xC;
pub const INCR_READ: u32 = 0x10;
pub const INCR_WRITE: u32 = 0x20;
pub const RING_SIZE_SHIFT: u32 = 6;
pub const RING_SIZE_MASK: u32 = 0x3C0;
pub const RING_SEL: u32 = 0x400;
pub const CHAIN_TO_SHIFT: u32 = 11;
pub const CHAIN_TO_MASK: u32 = 0x3800;
pub const RING_SEL_SHIFT: u32 = 10;
pub const TREQ_SEL_SHIFT: u32 = 15;
pub const TREQ_SEL_MASK: u32 = 0x1F8000;
pub const IRQ_QUIET: u32 = 0x200000;
pub const BSWAP: u32 = 0x400000;
pub const SNIFF_EN: u32 = 0x800000;
pub const BUSY: u32 = 0x1000000;
pub const WRITE_ERROR: u32 = 0x20000000;
pub const READ_ERROR: u32 = 0x40000000;
pub const AHB_ERROR: u32 = 0x80000000;

} // verus!
