//! The renumbering of binary64 bit patterns by signed integers.
//!
//! Read as unsigned numbers, the patterns with a clear sign bit already stand
//! in ascending total order, while those with the sign bit set stand in
//! descending order. Flipping the 63 low bits of the second half turns the
//! whole into one ascending sequence, indexed by `i64`.

use vstd::prelude::*;

verus! {

/// Every bit of a pattern except its sign bit.
pub const MAGNITUDE_MASK: u64 = 0x7FFF_FFFF_FFFF_FFFF;

/// The sign bit of a pattern, alone.
pub const SIGN_BIT: u64 = 0x8000_0000_0000_0000;

/// Whether the sign bit of `bits` is set.
pub open spec fn is_negative(bits: u64) -> bool {
    bits >= SIGN_BIT
}

/// The 63 low bits of `bits`, as a number.
pub open spec fn magnitude(bits: u64) -> int {
    if is_negative(bits) {
        bits - SIGN_BIT
    } else {
        bits as int
    }
}

/// The IEEE 754 total order on bit patterns, strict: patterns with the sign
/// bit set come first, the larger magnitude earlier; then those with a clear
/// sign bit, the smaller magnitude earlier.
pub open spec fn total_order_lt(a: u64, b: u64) -> bool {
    if is_negative(a) != is_negative(b) {
        is_negative(a)
    } else if is_negative(a) {
        magnitude(a) > magnitude(b)
    } else {
        magnitude(a) < magnitude(b)
    }
}

/// The place of a pattern in the total order, counted from the pattern of
/// positive zero: negative zero is at -1, the all-ones pattern at -2^63.
pub open spec fn rank_of_bits(bits: u64) -> int {
    if is_negative(bits) {
        -1 - magnitude(bits)
    } else {
        magnitude(bits)
    }
}

/// The bit pattern that the integer `e` stands for: its two's complement
/// representation, with the 63 low bits flipped where `e` is negative.
pub open spec fn float_bits_of(e: i64) -> u64 {
    if e >= 0 {
        e as u64
    } else {
        (e as u64) ^ MAGNITUDE_MASK
    }
}

/// The integer that stands for the pattern `bits`: the same flip, read back
/// as a signed number.
pub open spec fn index_of_bits(bits: u64) -> i64 {
    if bits < SIGN_BIT {
        bits as i64
    } else {
        (bits ^ MAGNITUDE_MASK) as i64
    }
}

/// The renumbering, in arithmetic: a negative `e` stands for the pattern
/// `2^63 - 1 - e`, any other for itself.
pub proof fn lemma_float_bits_arith(e: i64)
    ensures
        e >= 0 ==> float_bits_of(e) == e,
        e < 0 ==> float_bits_of(e) == 0x7FFF_FFFF_FFFF_FFFF - e,
{
    assert(e >= 0 ==> (e as u64) == e) by (bit_vector);
    assert(e < 0 ==> ((e as u64) ^ 0x7FFF_FFFF_FFFF_FFFFu64) == 0x7FFF_FFFF_FFFF_FFFF - e)
        by (bit_vector);
}

/// The way back, in arithmetic.
pub proof fn lemma_index_arith(bits: u64)
    ensures
        bits < SIGN_BIT ==> index_of_bits(bits) == bits,
        bits >= SIGN_BIT ==> index_of_bits(bits) == 0x7FFF_FFFF_FFFF_FFFF - bits,
{
    assert(bits < 0x8000_0000_0000_0000u64 ==> (bits as i64) == bits) by (bit_vector);
    assert(bits >= 0x8000_0000_0000_0000u64 ==> ((bits ^ 0x7FFF_FFFF_FFFF_FFFFu64) as i64)
        == 0x7FFF_FFFF_FFFF_FFFF - bits) by (bit_vector);
}

/// An integer is the rank of the pattern it stands for.
pub proof fn lemma_rank_of_float_bits(e: i64)
    ensures
        rank_of_bits(float_bits_of(e)) == e,
{
    lemma_float_bits_arith(e);
}

/// The index of a pattern is its rank.
pub proof fn lemma_index_is_rank(bits: u64)
    ensures
        index_of_bits(bits) == rank_of_bits(bits),
{
    lemma_index_arith(bits);
}

/// One pattern precedes another in the total order exactly when its rank is
/// the smaller.
pub proof fn lemma_total_order_by_rank(a: u64, b: u64)
    ensures
        total_order_lt(a, b) <==> rank_of_bits(a) < rank_of_bits(b),
        a == b <==> rank_of_bits(a) == rank_of_bits(b),
{
}

/// The renumbering preserves order: the smaller integer stands for the
/// pattern that comes strictly earlier in the total order.
pub proof fn lemma_float_bits_ascending(e1: i64, e2: i64)
    requires
        e1 < e2,
    ensures
        total_order_lt(float_bits_of(e1), float_bits_of(e2)),
{
    lemma_rank_of_float_bits(e1);
    lemma_rank_of_float_bits(e2);
    lemma_total_order_by_rank(float_bits_of(e1), float_bits_of(e2));
}

/// No two integers stand for the same pattern.
pub proof fn lemma_float_bits_injective(e1: i64, e2: i64)
    requires
        float_bits_of(e1) == float_bits_of(e2),
    ensures
        e1 == e2,
{
    lemma_rank_of_float_bits(e1);
    lemma_rank_of_float_bits(e2);
}

/// Reading back the pattern that an integer stands for gives the integer.
pub proof fn lemma_index_of_float_bits(e: i64)
    ensures
        index_of_bits(float_bits_of(e)) == e,
{
    lemma_rank_of_float_bits(e);
    lemma_index_is_rank(float_bits_of(e));
}

/// Every pattern is reached: it is what its own index stands for.
pub proof fn lemma_float_bits_of_index(bits: u64)
    ensures
        float_bits_of(index_of_bits(bits)) == bits,
{
    lemma_index_is_rank(bits);
    lemma_rank_of_float_bits(index_of_bits(bits));
    lemma_total_order_by_rank(float_bits_of(index_of_bits(bits)), bits);
}

/// The two maps are one operation on 64 bits, read once as signed and once
/// as unsigned: the flip is its own inverse.
pub proof fn lemma_flip_is_own_inverse(bits: u64)
    ensures
        index_of_bits(bits) as u64 == float_bits_of(bits as i64),
        float_bits_of(float_bits_of(bits as i64) as i64) == bits,
{
    assert(bits < 0x8000_0000_0000_0000u64 ==> (bits as i64) >= 0 && ((bits as i64) as u64)
        == bits) by (bit_vector);
    assert(bits >= 0x8000_0000_0000_0000u64 ==> (bits as i64) < 0 && (((bits
        ^ 0x7FFF_FFFF_FFFF_FFFFu64) as i64) as u64) == ((bits as i64) as u64)
        ^ 0x7FFF_FFFF_FFFF_FFFFu64) by (bit_vector);
    assert(bits >= 0x8000_0000_0000_0000u64 ==> ((bits ^ 0x7FFF_FFFF_FFFF_FFFFu64) as i64) < 0
        && (((bits ^ 0x7FFF_FFFF_FFFF_FFFFu64) as i64) as u64) ^ 0x7FFF_FFFF_FFFF_FFFFu64 == bits)
        by (bit_vector);
    assert((bits as i64) as u64 == bits) by (bit_vector);
}

/// The bit pattern that the integer `e` stands for.
pub fn to_float_bits(e: i64) -> (bits: u64)
    ensures
        bits == float_bits_of(e),
{
    assert(e < 0 ==> ((e ^ 0x7FFF_FFFF_FFFF_FFFFi64) as u64) == ((e as u64)
        ^ 0x7FFF_FFFF_FFFF_FFFFu64)) by (bit_vector);
    (if e >= 0 {
        e
    } else {
        e ^ i64::MAX
    }) as u64
}

/// The integer that stands for the pattern `bits`.
pub fn to_index(bits: u64) -> (e: i64)
    ensures
        e == index_of_bits(bits),
{
    (if bits < SIGN_BIT {
        bits
    } else {
        bits ^ MAGNITUDE_MASK
    }) as i64
}

} // verus!
