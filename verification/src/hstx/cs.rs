use vstd::prelude::*;

verus! {

pub const EN: u32 = 1;
pub const SFR: u32 = 2;
pub const SFT: u32 = 4;
pub const SFV: u32 = 8;
pub const SFH: u32 = 0x10;
pub const SFM: u32 = 0x20;
pub const SFQ: u32 = 0x40;
pub const SFC: u32 = 0x80;
pub const SFE: u32 = 0x100;
pub const SFP: u32 = 0x200;
pub const SFN: u32 = 0x400;

} // verus!
