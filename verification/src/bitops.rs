//! Small bit-arithmetic facts the walk's address computations rest on.
use vstd::prelude::*;

verus! {

/// A one-bit left shift below the word width is positive and bounded.
pub proof fn lemma_shl1_pos(s: u64)
    by (bit_vector)
    requires
        s < 64,
    ensures
        1u64 <= (1u64 << s),
        (1u64 << s) <= 0x8000_0000_0000_0000u64,
{
}

/// Masking can only clear bits: the result never exceeds the mask.
pub proof fn lemma_and_le(x: u64, m: u64)
    by (bit_vector)
    ensures
        (x & m) <= m,
{
}

/// Masking can only clear bits: the result never exceeds the left operand.
pub proof fn lemma_and_le_left(x: u64, m: u64)
    by (bit_vector)
    ensures
        (x & m) <= x,
{
}

/// A table index shifted to a descriptor offset stays below 2^17: the index
/// spans at most 13 bits and a descriptor is at most 16 bytes.
pub proof fn lemma_index_offset_bound(va: u64, low_bit: u64, width: u64, dlog: u64)
    by (bit_vector)
    requires
        low_bit < 64,
        width <= 13,
        dlog <= 4,
    ensures
        (((va >> low_bit) & (((1u64 << width) - 1) as u64)) << dlog) < 0x2_0000u64,
{
}

/// The bitwise or of two two-bit values is a two-bit value.
pub proof fn lemma_or_le_3(a: u64, b: u64)
    by (bit_vector)
    requires
        a <= 3,
        b <= 3,
    ensures
        (a | b) <= 3,
{
}

/// The bitwise or of two one-bit values is a one-bit value.
pub proof fn lemma_or_le_1(a: u64, b: u64)
    by (bit_vector)
    requires
        a <= 1,
        b <= 1,
    ensures
        (a | b) <= 1,
{
}

/// Splitting a 128-bit descriptor into its two words and recomposing them
/// is the identity; recomposing with the low word of another descriptor that
/// shares the high word yields that descriptor.
pub proof fn lemma_u128_low_high(descriptor: u128, new_desc: u128, after: u64)
    by (bit_vector)
    ensures
        (((after as u128) | ((((descriptor >> 64) as u64) as u128) << 64)) as u64) == after,
        (((after as u128) | ((((descriptor >> 64) as u64) as u128) << 64)) >> 64) == (descriptor
            >> 64),
        ((descriptor >> 64) == (new_desc >> 64) && after == (new_desc as u64)) ==> ((after as u128)
            | ((((descriptor >> 64) as u64) as u128) << 64)) == new_desc,
{
}

/// Replacing the low word of a 128-bit descriptor keeps its high word, sets
/// its low word, and is the identity when the low word is unchanged.
pub proof fn lemma_u128_replace_low(d: u128, x: u64)
    by (bit_vector)
    ensures
        (((((d >> 64) as u64) as u128) << 64 | (x as u128)) >> 64) == (d >> 64),
        (((((d >> 64) as u64) as u128) << 64 | (x as u128)) as u64) == x,
        x == (d as u64) ==> ((((d >> 64) as u64) as u128) << 64 | (x as u128)) == d,
{
}

/// Reversing the byte order of a 64-bit word twice restores the word.
pub proof fn lemma_byte_swap_involutive(x: u64)
    by (bit_vector)
    ensures
        crate::physmem::spec_byte_swap64(crate::physmem::spec_byte_swap64(x)) == x,
{
}

} // verus!
