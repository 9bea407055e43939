use vstd::prelude::*;

verus! {

pub const RX_UNDER: u32 = 1;
pub const RX_OVER: u32 = 2;
pub const RX_FULL: u32 = 4;
pub const TX_OVER: u32 = 8;
pub const TX_EMPTY: u32 = 0x10;
pub const RD_REQ: u32 = 0x20;
pub const TX_ABRT: u32 = 0x40;
pub const RX_DONE: u32 = 0x80;
pub const ACTIVITY: u32 = 0x100;
pub const STOP_DET: u32 = 0x200;
pub const START_DET: u32 = 0x400;
pub const GEN_CALL: u32 = 0x800;
pub const RESTART_DET: u32 = 0x1000;

} // verus!
