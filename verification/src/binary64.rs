//! A binary64 floating-point value, held as its bit pattern.

use crate::bits::{
    float_bits_of, lemma_index_is_rank, lemma_rank_of_float_bits, lemma_total_order_by_rank,
    rank_of_bits, to_float_bits, to_index, total_order_lt,
};
use crate::float::search_float;
use crate::guesser::{verdict, Guesser, Ranked};
use std::cmp::Ordering;
use vstd::prelude::*;

verus! {

/// An IEEE 754 binary64 value as its 64 bits. Two values are equal when
/// their bits are: the two zeros differ, and so do any two NaN payloads.
#[derive(Clone, Copy, Debug, PartialEq, Eq, Structural)]
pub struct Binary64 {
    pub bits: u64,
}

impl Binary64 {
    /// The value that the integer `e` stands for in the renumbering.
    pub open spec fn of_index(e: i64) -> Self {
        Binary64 { bits: float_bits_of(e) }
    }

    /// The value with the given bits.
    pub fn from_bits(bits: u64) -> (x: Self)
        ensures
            x.bits == bits,
    {
        Binary64 { bits }
    }

    /// The bits of the value.
    pub fn to_bits(self) -> (bits: u64)
        ensures
            bits == self.bits,
    {
        self.bits
    }

    /// The value that the integer `e` stands for in the renumbering.
    pub fn from_index(e: i64) -> (x: Self)
        ensures
            x == Self::of_index(e),
            x.rank() == e,
    {
        proof {
            lemma_rank_of_float_bits(e);
        }
        Binary64 { bits: to_float_bits(e) }
    }

    /// Compares two values in the IEEE 754 total order: `Less` when `self`
    /// comes before `other`, `Equal` when their bits agree.
    pub fn total_cmp(&self, other: &Self) -> (o: Ordering)
        ensures
            o == verdict(self.rank(), other.rank()),
            o == Ordering::Less <==> total_order_lt(self.bits, other.bits),
            o == Ordering::Equal <==> self.bits == other.bits,
            o == Ordering::Greater <==> total_order_lt(other.bits, self.bits),
    {
        proof {
            lemma_index_is_rank(self.bits);
            lemma_index_is_rank(other.bits);
            lemma_total_order_by_rank(self.bits, other.bits);
            lemma_total_order_by_rank(other.bits, self.bits);
        }
        let left = to_index(self.bits);
        let right = to_index(other.bits);
        if left < right {
            Ordering::Less
        } else if left == right {
            Ordering::Equal
        } else {
            Ordering::Greater
        }
    }
}

impl Ranked for Binary64 {
    open spec fn rank(self) -> int {
        rank_of_bits(self.bits)
    }

    proof fn lemma_rank_injective(a: Self, b: Self) {
        lemma_total_order_by_rank(a.bits, b.bits);
    }
}

impl Guesser for Binary64 {
    fn guess<F>(judge: F) -> (found: Self) where F: Fn(Self) -> Ordering {
        search_float(judge)
    }
}

} // verus!
