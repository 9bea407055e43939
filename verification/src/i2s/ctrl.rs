use vstd::prelude::*;

verus! {

pub const I2S_EN: u32 = 1;
pub const DMA_TX_EN: u32 = 2;
pub const DMA_RX_EN: u32 = 4;
pub const TX_EN: u32 = 8;
pub const RX_EN: u32 = 0x10;
pub const TX_PAUSE: u32 = 0x20;
pub const RX_PAUSE: u32 = 0x40;
pub const TX_SLAVE: u32 = 0x80;
pub const RX_SLAVE: u32 = 0x100;

} // verus!
