//! The search for a hidden binary64 value, carried by the integer search.

use crate::binary64::Binary64;
use crate::bits::{
    index_of_bits, lemma_float_bits_arith, lemma_index_is_rank, lemma_index_of_float_bits,
    lemma_rank_of_float_bits,
};
use crate::guesser::{hides, verdict, Ranked};
use crate::integer::search_integer_counted;
use crate::probes::probes_needed;
use std::cmp::Ordering;
use vstd::prelude::*;

verus! {

/// Finds the value that `oracle` hides, and counts the questions asked.
///
/// Each integer candidate of the underlying search is shown to the oracle as
/// the value it stands for, so no arithmetic is ever done on a float. The
/// count is that of the integer search for the hidden value's index: 65 when
/// the hidden value is the last of the total order, the positive NaN with
/// every payload bit set, and at most 64 otherwise.
pub fn search_float_counted<F>(oracle: F) -> (r: (Binary64, u32)) where
    F: Fn(Binary64) -> Ordering,

    requires
        forall|x: Binary64| #[trigger] oracle.requires((x,)),
        exists|t: Binary64| hides(oracle, t),
    ensures
        oracle.ensures((r.0,), Ordering::Equal),
        forall|t: Binary64| hides(oracle, t) ==> r.0 == t,
        r.1 == probes_needed(index_of_bits(r.0.bits)),
        1 <= r.1 <= 65,
        r.0.bits != 0x7FFF_FFFF_FFFF_FFFFu64 ==> r.1 <= 64,
        r.0.bits == 0x7FFF_FFFF_FFFF_FFFFu64 ==> r.1 == 65,
{
    let ghost target = choose|t: Binary64| hides(oracle, t);
    let asked = &oracle;
    let by_index = |e: i64| -> (o: Ordering)
        ensures
            asked.ensures((Binary64::of_index(e),), o),
        { asked(Binary64::from_index(e)) };
    proof {
        let t = index_of_bits(target.bits);
        lemma_index_is_rank(target.bits);
        assert forall|e: i64, o: Ordering| #[trigger] by_index.ensures((e,), o) implies o
            == verdict(t.rank(), e.rank()) by {
            lemma_rank_of_float_bits(e);
        }
        assert(hides(by_index, t));
    }
    let (e, probes) = search_integer_counted(by_index);
    proof {
        lemma_float_bits_arith(e);
        lemma_index_of_float_bits(e);
        assert forall|t: Binary64| hides(oracle, t) implies Binary64::of_index(e) == t by {
            lemma_rank_of_float_bits(e);
            Binary64::lemma_rank_injective(Binary64::of_index(e), t);
        }
    }
    (Binary64::from_index(e), probes)
}

/// Finds the value that `oracle` hides.
///
/// The oracle must accept every candidate and answer as one hidden value
/// dictates, by the IEEE 754 total order: `Greater` for a candidate before
/// it, `Less` for one after it and `Equal` for the very same bits.
pub fn search_float<F>(oracle: F) -> (found: Binary64) where F: Fn(Binary64) -> Ordering
    requires
        forall|x: Binary64| #[trigger] oracle.requires((x,)),
        exists|t: Binary64| hides(oracle, t),
    ensures
        oracle.ensures((found,), Ordering::Equal),
        forall|t: Binary64| hides(oracle, t) ==> found == t,
{
    search_float_counted(oracle).0
}

/// Hides `hidden` behind the judge that compares it with each candidate in
/// the total order, and finds it again, bit for bit.
pub fn guess_float(hidden: Binary64) -> (found: Binary64)
    ensures
        found == hidden,
{
    let judge = |e: Binary64| -> (o: Ordering)
        ensures
            o == verdict(hidden.rank(), e.rank()),
        { hidden.total_cmp(&e) };
    assert(hides(judge, hidden));
    search_float(judge)
}

} // verus!
