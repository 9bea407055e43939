//! Configuration bits.
use vstd::prelude::*;

verus! {

/// Configuration bit definitions.
pub struct ConfigBits;

impl ConfigBits {
    pub const ENABLE: u32 = 1;
    pub const RESET: u32 = 2;
    pub const IRQ_ENABLE: u32 = 4;
}

} // verus!
