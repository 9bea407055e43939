use vstd::prelude::*;

verus! {

pub const TXEMPTY_MASK: u32 = 0xF;
pub const TXFULL_MASK: u32 = 0xF0;
pub const RXEMPTY_MASK: u32 = 0xF00;
pub const RXFULL_MASK: u32 = 0xF000;

} // verus!
