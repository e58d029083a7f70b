//! Binary search over the whole range of `i64`.

use crate::guesser::{hides, verdict, Ranked};
use crate::probes::{lemma_probes_needed_bound, probes_left, probes_needed};
use num::integer::Average;
use std::cmp::Ordering;
use vstd::prelude::*;

verus! {

/// `num::integer::Average::average_floor` on two `i64`. Trusted, not proved:
/// the result is the mean of the two, rounded toward negative infinity. The
/// crate computes it as `(a & b) + ((a ^ b) >> 1)`, which cannot overflow.
#[verifier::external_body]
fn average_floor(low: i64, high: i64) -> (mid: i64)
    ensures
        mid == (low + high) / 2,
{
    low.average_floor(&high)
}

/// Finds the integer that `oracle` hides, and counts the questions asked.
///
/// The first candidate is the middle of the whole range; each answer other
/// than `Equal` discards the half in which the hidden value cannot lie. The
/// count is 65 when the hidden value is `i64::MAX`, and at most 64 otherwise.
pub fn search_integer_counted<F>(oracle: F) -> (r: (i64, u32)) where F: Fn(i64) -> Ordering
    requires
        forall|e: i64| #[trigger] oracle.requires((e,)),
        exists|t: i64| hides(oracle, t),
    ensures
        oracle.ensures((r.0,), Ordering::Equal),
        forall|t: i64| hides(oracle, t) ==> r.0 == t,
        r.1 == probes_needed(r.0),
        1 <= r.1 <= 65,
        r.0 != i64::MAX ==> r.1 <= 64,
        r.0 == i64::MAX ==> r.1 == 65,
{
    let ghost target = choose|t: i64| hides(oracle, t);
    let mut low = i64::MIN;
    let mut high = i64::MAX;
    let mut probes: u32 = 0;
    proof {
        lemma_probes_needed_bound(target);
    }
    loop
        invariant
            forall|e: i64| #[trigger] oracle.requires((e,)),
            hides(oracle, target),
            low <= target <= high,
            probes + probes_left(low, high, target) == probes_needed(target) <= 65,
        decreases high - low,
    {
        let mid = average_floor(low, high);
        match oracle(mid) {
            Ordering::Greater => {
                probes = probes + 1;
                low = mid + 1;
            },
            Ordering::Equal => {
                proof {
                    lemma_probes_needed_bound(mid);
                }
                return (mid, probes + 1);
            },
            Ordering::Less => {
                probes = probes + 1;
                high = mid - 1;
            },
        }
    }
}

/// Finds the integer that `oracle` hides.
///
/// The oracle must accept every candidate and answer as one hidden value
/// dictates: `Greater` for a candidate below it, `Less` for one above it and
/// `Equal` for the value itself.
pub fn search_integer<F>(oracle: F) -> (found: i64) where F: Fn(i64) -> Ordering
    requires
        forall|e: i64| #[trigger] oracle.requires((e,)),
        exists|t: i64| hides(oracle, t),
    ensures
        oracle.ensures((found,), Ordering::Equal),
        forall|t: i64| hides(oracle, t) ==> found == t,
{
    search_integer_counted(oracle).0
}

/// Hides `hidden` behind the judge that compares it with each candidate,
/// and finds it again.
pub fn guess_integer(hidden: i64) -> (found: i64)
    ensures
        found == hidden,
{
    let judge = |e: i64| -> (o: Ordering)
        ensures
            o == verdict(hidden.rank(), e.rank()),
        { hidden.cmp(&e) };
    assert(hides(judge, hidden));
    search_integer(judge)
}

} // verus!
