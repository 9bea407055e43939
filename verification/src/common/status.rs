//! Status bits.
use vstd::prelude::*;

verus! {

/// Status bit definitions.
pub struct StatusBits;

impl StatusBits {
    pub const BUSY: u32 = 1;
    pub const READY: u32 = 2;
    pub const ERROR: u32 = 4;
    pub const ENABLED: u32 = 8;
}

} // verus!
