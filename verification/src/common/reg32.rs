//! A 32-bit register with bit-field access.
use vstd::prelude::*;

use vstd::arithmetic::power2::pow2;

verus! {

/// Mask of the low `len` bits.
pub open spec fn low_mask(len: u32) -> u32 {
    ((1u32 << len) - 1) as u32
}

/// `x` with the `len`-bit field at bit `start` replaced by the low bits of
/// `value` (bits shifted past bit 31 are dropped).
pub open spec fn with_field(x: u32, start: u32, len: u32, value: u32) -> u32 {
    (x & !(low_mask(len) << start)) | ((value << start) & (low_mask(len) << start))
}

/// 32-bit register.
#[derive(Debug, Clone, Copy)]
pub struct Reg32(pub u32);

impl Default for Reg32 {
    fn default() -> (r: Self)
        ensures
            r.0 == 0,
    {
        Reg32(0)
    }
}

/// A field reads back the value written to it, cut to the field's width,
/// when the field lies within the word.
pub proof fn lemma_field_round_trip(x: u32, start: u32, len: u32, value: u32)
    requires
        start < 32,
        len < 32,
        start + len <= 32,
    ensures
        (with_field(x, start, len, value) >> start) & low_mask(len) == value & low_mask(len),
{
    assert((with_field(x, start, len, value) >> start) & low_mask(len) == value & low_mask(len))
        by (bit_vector)
        requires
            start < 32,
            len < 32,
            start + len <= 32,
    ;
}

/// Writing a field keeps every bit outside it.
pub proof fn lemma_field_keeps_other_bits(x: u32, start: u32, len: u32, value: u32, b: u32)
    requires
        start < 32,
        len < 32,
        b < 32,
        b < start || b >= start + len,
    ensures
        with_field(x, start, len, value) & (1u32 << b) == x & (1u32 << b),
{
    assert(with_field(x, start, len, value) & (1u32 << b) == x & (1u32 << b)) by (bit_vector)
        requires
            start < 32,
            len < 32,
            b < 32,
            b < start || b >= start + len,
    ;
}

impl Reg32 {
    pub fn new(value: u32) -> (r: Self)
        ensures
            r.0 == value,
    {
        Reg32(value)
    }

    pub fn get(&self) -> (r: u32)
        ensures
            r == self.0,
    {
        self.0
    }

    pub fn set(&mut self, value: u32)
        ensures
            final(self).0 == value,
    {
        self.0 = value;
    }

    /// The `len`-bit field at bit `start`.
    pub fn read_field(&self, start: u32, len: u32) -> (r: u32)
        requires
            start < 32,
            len < 32,
        ensures
            r == (self.0 >> start) & low_mask(len),
            r == (self.0 as nat / pow2(start as nat)) % pow2(len as nat),
    {
        proof {
            crate::bits::lemma_bit_ops(0, len, 0);
            vstd::bits::lemma_u32_pow2_no_overflow(len as nat);
            vstd::bits::lemma_u32_shl_is_mul(1, len);
            vstd::bits::lemma_u32_shr_is_div(self.0, start);
            vstd::bits::lemma_u32_low_bits_mask_is_mod(self.0 >> start, len as nat);
            assert(low_mask(len) == vstd::bits::low_bits_mask(len as nat) as u32);
        }
        (self.0 >> start) & ((1u32 << len) - 1)
    }

    /// Replace the `len`-bit field at bit `start` with the low bits of `value`.
    pub fn write_field(&mut self, start: u32, len: u32, value: u32)
        requires
            start < 32,
            len < 32,
        ensures
            final(self).0 == with_field(old(self).0, start, len, value),
    {
        proof {
            crate::bits::lemma_bit_ops(0, len, 0);
        }
        let mask = ((1u32 << len) - 1) << start;
        self.0 = (self.0 & !mask) | ((value << start) & mask);
    }
}

impl std::ops::BitAnd for Reg32 {
    type Output = Reg32;

    fn bitand(self, other: Reg32) -> (r: Reg32)
        ensures
            r.0 == self.0 & other.0,
    {
        Reg32(self.0 & other.0)
    }
}

impl std::ops::BitOr for Reg32 {
    type Output = Reg32;

    fn bitor(self, other: Reg32) -> (r: Reg32)
        ensures
            r.0 == self.0 | other.0,
    {
        Reg32(self.0 | other.0)
    }
}

impl std::ops::Not for Reg32 {
    type Output = Reg32;

    fn not(self) -> (r: Reg32)
        ensures
            r.0 == !self.0,
    {
        Reg32(!self.0)
    }
}

impl vstd::std_specs::ops::BitAndSpecImpl for Reg32 {
    open spec fn obeys_bitand_spec() -> bool {
        true
    }

    open spec fn bitand_req(self, rhs: Reg32) -> bool {
        true
    }

    open spec fn bitand_spec(self, rhs: Reg32) -> Reg32 {
        Reg32(self.0 & rhs.0)
    }
}

impl vstd::std_specs::ops::BitOrSpecImpl for Reg32 {
    open spec fn obeys_bitor_spec() -> bool {
        true
    }

    open spec fn bitor_req(self, rhs: Reg32) -> bool {
        true
    }

    open spec fn bitor_spec(self, rhs: Reg32) -> Reg32 {
        Reg32(self.0 | rhs.0)
    }
}

impl vstd::std_specs::ops::NotSpecImpl for Reg32 {
    open spec fn obeys_not_spec() -> bool {
        true
    }

    open spec fn not_req(self) -> bool {
        true
    }

    open spec fn not_spec(self) -> Reg32 {
        Reg32(!self.0)
    }
}

} // verus!
