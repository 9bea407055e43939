use vstd::prelude::*;

verus! {

pub const CTRL: u32 = 0;
pub const FMT: u32 = 4;
pub const INTCR: u32 = 8;
pub const INTSR: u32 = 0xC;
pub const CLR: u32 = 0x10;
pub const DMA: u32 = 0x14;
pub const TXDR: u32 = 0x18;
pub const RXDR: u32 = 0x1C;
pub const TXFIFOLR: u32 = 0x20;
pub const RXFIFOLR: u32 = 0x24;
pub const IER: u32 = 0x28;
pub const IRER: u32 = 0x2C;
pub const ITER: u32 = 0x30;
pub const CER: u32 = 0x34;
pub const CLOCK: u32 = 0x38;
pub const RATIO: u32 = 0x3C;

} // verus!
