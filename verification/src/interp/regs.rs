use vstd::prelude::*;

verus! {

pub const ACCUM0: u32 = 0;
pub const ACCUM1: u32 = 4;
pub const BASE0: u32 = 8;
pub const BASE1: u32 = 0xC;
pub const BASE2: u32 = 0x10;
pub const POP_LANE0: u32 = 0x14;
pub const POP_LANE1: u32 = 0x18;
pub const POP_FULL: u32 = 0x1C;
pub const PEEK_LANE0: u32 = 0x20;
pub const PEEK_LANE1: u32 = 0x24;
pub const PEEK_FULL: u32 = 0x28;
pub const CTRL_LANE0: u32 = 0x2C;
pub const CTRL_LANE1: u32 = 0x30;
pub const CTRL_LANE0_SIGNED: u32 = 0x34;
pub const CTRL_LANE1_SIGNED: u32 = 0x38;
pub const ADD_RAW: u32 = 0x3C;
pub const BASE0_AND1: u32 = 0x40;

} // verus!
