use vstd::prelude::*;

verus! {

pub const CTRL: u32 = 0;
pub const CTRL_SET: u32 = 4;
pub const CTRL_CLR: u32 = 8;
pub const STATUS: u32 = 0xC;
pub const CE: u32 = 0x10;
pub const CE_SET: u32 = 0x14;
pub const CE_CLR: u32 = 0x18;
pub const KEY: u32 = 0x1C;
pub const KEY_SET: u32 = 0x20;
pub const KEY_CLR: u32 = 0x24;
pub const DATA: u32 = 0x30;
pub const ADDR: u32 = 0x34;
pub const DBG_LOCK: u32 = 0x38;
pub const DBG_LOCK_SET: u32 = 0x3C;
pub const DBG_LOCK_CLR: u32 = 0x40;
pub const SW_LOCK0: u32 = 0x44;
pub const SW_LOCK1: u32 = 0x48;
pub const SW_LOCK2: u32 = 0x4C;
pub const SW_LOCK3: u32 = 0x50;
pub const SW_LOCK4: u32 = 0x54;
pub const SW_LOCK5: u32 = 0x58;
pub const SW_LOCK6: u32 = 0x5C;
pub const SW_LOCK7: u32 = 0x60;
pub const SW_LOCK8: u32 = 0x64;
pub const SW_LOCK9: u32 = 0x68;
pub const SW_LOCK10: u32 = 0x6C;
pub const SW_LOCK11: u32 = 0x70;
pub const BOOTDIS: u32 = 0x74;

} // verus!
