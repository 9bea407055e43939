//! Bit-level facts about register words shared by the device models.
use vstd::prelude::*;

verus! {

/// Masks bound their result; shifting by zero, masking with all ones and
/// or-ing zero change nothing; clearing a mask and keeping it restores a word.
pub proof fn lemma_word_facts(x: u32, y: u32)
    by (bit_vector)
    ensures
        x & 0x1 < 2,
        x & 0x3 < 4,
        x & 0x7 < 8,
        x & 0xF < 16,
        x & 0x1F < 32,
        x & 0x3F < 64,
        x & 0xFF < 256,
        x & 0xFFFF < 0x10000,
        x >> 16u32 <= 0xFFFF,
        x >> 0u32 == x,
        x << 0u32 == x,
        x & 0xFFFF_FFFFu32 == x,
        x | 0u32 == x,
        x & !x == 0,
        (x & y) & !x == 0,
        (x & !y) | (x & y) == x,
        (x | y) & y == y,
        ((x | y) & !y) & y == 0,
        ((x & !y) | y) & y == y,
        y != 0 ==> x | y != 0,
{
}

/// Setting or clearing bit `b` of a word sets or clears that bit and keeps
/// every other bit `c`.
pub proof fn lemma_bit_ops(a: u32, b: u32, c: u32)
    by (bit_vector)
    requires
        b < 32,
        c < 32,
    ensures
        (1u32 << b) >= 1,
        (a | (1u32 << b)) & (1u32 << b) != 0,
        (a & !(1u32 << b)) & (1u32 << b) == 0,
        b != c ==> (((a | (1u32 << b)) & (1u32 << c) != 0) == (a & (1u32 << c) != 0)),
        b != c ==> (((a & !(1u32 << b)) & (1u32 << c) != 0) == (a & (1u32 << c) != 0)),
{
}

/// Replacing the byte at bit `s` of a word stores it there and keeps the byte
/// at any other byte position `t`.
pub proof fn lemma_byte_ops(a: u32, s: u32, t: u32, p: u32)
    by (bit_vector)
    requires
        s == 0 || s == 8 || s == 16 || s == 24,
        t == 0 || t == 8 || t == 16 || t == 24,
        p < 256,
    ensures
        (((a & !(0xFFu32 << s)) | (p << s)) >> s) & 0xFF == p,
        s != t ==> (((a & !(0xFFu32 << s)) | (p << s)) >> t) & 0xFF == (a >> t) & 0xFF,
{
}

/// Masks of 16-bit instruction words.
pub proof fn lemma_half_facts(x: u16)
    by (bit_vector)
    ensures
        (x >> 13u16) & 0x7 <= 7,
        x & 0x1F < 32,
{
}

/// The low word of a 64-bit value built from two words is the first word.
pub proof fn lemma_low_word(x: u32, y: u32)
    by (bit_vector)
    ensures
        (((x as u64) | ((y as u64) << 32u64)) as u32) == x,
{
}

} // verus!
