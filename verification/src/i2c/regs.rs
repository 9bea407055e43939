use vstd::prelude::*;

verus! {

pub const IC_CON: u32 = 0;
pub const IC_TAR: u32 = 4;
pub const IC_SAR: u32 = 8;
pub const IC_HS_MADDR: u32 = 0xC;
pub const IC_DATA_CMD: u32 = 0x10;
pub const IC_SS_SCL_HCNT: u32 = 0x14;
pub const IC_SS_SCL_LCNT: u32 = 0x18;
pub const IC_FS_SCL_HCNT: u32 = 0x1C;
pub const IC_FS_SCL_LCNT: u32 = 0x20;
pub const IC_INTR_STAT: u32 = 0x2C;
pub const IC_INTR_MASK: u32 = 0x30;
pub const IC_RAW_INTR_STAT: u32 = 0x34;
pub const IC_RX_TL: u32 = 0x38;
pub const IC_TX_TL: u32 = 0x3C;
pub const IC_CLR_INTR: u32 = 0x40;
pub const IC_CLR_RX_UNDER: u32 = 0x44;
pub const IC_CLR_RX_OVER: u32 = 0x48;
pub const IC_CLR_TX_OVER: u32 = 0x4C;
pub const IC_CLR_RD_REQ: u32 = 0x50;
pub const IC_CLR_TX_ABRT: u32 = 0x54;
pub const IC_CLR_RX_DONE: u32 = 0x58;
pub const IC_CLR_ACTIVITY: u32 = 0x5C;
pub const IC_CLR_STOP_DET: u32 = 0x60;
pub const IC_CLR_START_DET: u32 = 0x64;
pub const IC_CLR_GEN_CALL: u32 = 0x68;
pub const IC_ENABLE: u32 = 0x6C;
pub const IC_STATUS: u32 = 0x70;
pub const IC_TXFLR: u32 = 0x74;
pub const IC_RXFLR: u32 = 0x78;
pub const IC_SDA_HOLD: u32 = 0x7C;
pub const IC_TX_ABRT_SOURCE: u32 = 0x80;
pub const IC_SLV_DATA_NACK_ONLY: u32 = 0x84;
pub const IC_DMA_CR: u32 = 0x88;
pub const IC_DMA_TDLR: u32 = 0x8C;
pub const IC_DMA_RDLR: u32 = 0x90;
pub const IC_SDA_SETUP: u32 = 0x94;
pub const IC_ACK_GENERAL_CALL: u32 = 0x98;
pub const IC_ENABLE_STATUS: u32 = 0x9C;
pub const IC_FS_SPKLEN: u32 = 0xA0;
pub const IC_HS_SPKLEN: u32 = 0xA4;
pub const IC_CLR_RESTART_DET: u32 = 0xA8;
pub const IC_COMP_PARAM_1: u32 = 0xF4;
pub const IC_COMP_VERSION: u32 = 0xF8;
pub const IC_COMP_TYPE: u32 = 0xFC;

} // verus!
