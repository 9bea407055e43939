use vstd::prelude::*;

verus! {

pub const CMD_READ: u16 = 0x100;
pub const CMD_STOP: u16 = 0x200;
pub const CMD_RESTART: u16 = 0x400;

} // verus!
