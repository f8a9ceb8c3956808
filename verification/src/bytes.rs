//! Little-endian 16-bit words and byte sums.

use vstd::prelude::*;

verus! {

/// The unsigned 16-bit word whose little-endian encoding is `[lo, hi]`.
pub open spec fn le_u16(lo: u8, hi: u8) -> u16 {
    (lo as int + 256 * (hi as int)) as u16
}

/// Low byte of the little-endian encoding of `word`.
pub open spec fn low_byte(word: u16) -> u8 {
    (word as int % 256) as u8
}

/// High byte of the little-endian encoding of `word`.
pub open spec fn high_byte(word: u16) -> u8 {
    (word as int / 256) as u8
}

/// Sum of all bytes of `bytes`, without any wrap-around.
pub open spec fn byte_sum(bytes: Seq<u8>) -> int
    decreases bytes.len(),
{
    if bytes.len() == 0 {
        0
    } else {
        byte_sum(bytes.drop_last()) + bytes.last() as int
    }
}

/// Sum of all bytes of `bytes` as a 16-bit accumulator holds it: reduced
/// modulo 2^16.
pub open spec fn wrapping_byte_sum(bytes: Seq<u8>) -> u16 {
    (byte_sum(bytes) % 0x1_0000) as u16
}

/// Reads a 2-byte array as a little-endian word.
pub fn u16_from_le(value: [u8; 2]) -> (word: u16)
    ensures
        word == le_u16(value@[0], value@[1]),
        word as int == value@[0] as int + 256 * (value@[1] as int),
{
    let lo: u16 = value[0] as u16;
    let hi: u16 = value[1] as u16;
    lo + 256 * hi
}

/// A word is the value of its own two bytes.
pub proof fn lemma_word_of_own_bytes(word: u16)
    ensures
        le_u16(low_byte(word), high_byte(word)) == word,
{
}

/// Two byte pairs encode the same word only if they are the same pair.
pub proof fn lemma_le_u16_injective(lo1: u8, hi1: u8, lo2: u8, hi2: u8)
    requires
        le_u16(lo1, hi1) == le_u16(lo2, hi2),
    ensures
        lo1 == lo2,
        hi1 == hi2,
{
}

/// The sum of `n` bytes is at most `255 * n`.
pub proof fn lemma_byte_sum_bounds(bytes: Seq<u8>)
    ensures
        0 <= byte_sum(bytes) <= 255 * bytes.len(),
    decreases bytes.len(),
{
    if bytes.len() > 0 {
        lemma_byte_sum_bounds(bytes.drop_last());
    }
}

/// Sums bytes `0..end` of `bytes` in a 16-bit accumulator with wrapping
/// addition.
pub fn sum_prefix(bytes: &[u8], end: usize) -> (sum: u16)
    requires
        end <= bytes@.len(),
    ensures
        sum == wrapping_byte_sum(bytes@.subrange(0, end as int)),
{
    let mut sum: u16 = 0;
    let mut i: usize = 0;
    while i < end
        invariant
            i <= end <= bytes@.len(),
            sum == wrapping_byte_sum(bytes@.subrange(0, i as int)),
        decreases end - i,
    {
        proof {
            let next = bytes@.subrange(0, i + 1);
            assert(next.drop_last() == bytes@.subrange(0, i as int));
            assert(next.last() == bytes@[i as int]);
        }
        sum = sum.wrapping_add(bytes[i] as u16);
        i += 1;
    }
    sum
}

} // verus!
