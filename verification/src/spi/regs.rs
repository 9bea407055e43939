use vstd::prelude::*;

verus! {

pub const SSPCR0: u32 = 0;
pub const SSPCR1: u32 = 4;
pub const SSPDR: u32 = 8;
pub const SSPSR: u32 = 0xC;
pub const SSPCPSR: u32 = 0x10;
pub const SSPIMSC: u32 = 0x14;
pub const SSPRIS: u32 = 0x18;
pub const SSPMIS: u32 = 0x1C;
pub const SSPICR: u32 = 0x20;
pub const SSPDMACR: u32 = 0x24;
pub const SSPPERIPHID0: u32 = 0xFE0;
pub const SSPPERIPHID1: u32 = 0xFE4;
pub const SSPPERIPHID2: u32 = 0xFE8;
pub const SSPPERIPHID3: u32 = 0xFEC;
pub const SSPPCELLID0: u32 = 0xFF0;
pub const SSPPCELLID1: u32 = 0xFF4;
pub const SSPPCELLID2: u32 = 0xFF8;
pub const SSPPCELLID3: u32 = 0xFFC;

} // verus!
