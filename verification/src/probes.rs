//! How many questions the bisection asks before it names a hidden integer.

use vstd::arithmetic::power2::{lemma2_to64, lemma_pow2_pos, lemma_pow2_unfold, pow2};
use vstd::prelude::*;

verus! {

/// The candidate asked about when the hidden value lies in `low..=high`:
/// the mean of the two bounds, rounded toward negative infinity.
pub open spec fn midpoint(low: int, high: int) -> int {
    (low + high) / 2
}

/// The number of questions asked from the moment the hidden `target` is
/// known to lie in `low..=high` until it is named: one for the midpoint,
/// and, unless that is the target, those of the half that still holds it.
pub open spec fn probes_within(low: int, high: int, target: int) -> nat
    decreases high - low + 1,
{
    let mid = midpoint(low, high);
    if high <= low || target == mid {
        1
    } else if target > mid {
        1 + probes_within(mid + 1, high, target)
    } else {
        1 + probes_within(low, mid - 1, target)
    }
}

/// The number of questions asked to find `target` in the whole range of
/// `i64`.
pub open spec fn probes_needed(target: i64) -> nat {
    probes_within(i64::MIN as int, i64::MAX as int, target as int)
}

/// `probes_within` on machine integers.
pub open spec fn probes_left(low: i64, high: i64, target: i64) -> nat {
    probes_within(low as int, high as int, target as int)
}

/// A range of fewer than 2^k candidates is searched in at most k questions.
pub proof fn lemma_probes_below_power(low: int, high: int, target: int, k: nat)
    requires
        low <= target <= high,
        high - low + 1 < pow2(k),
    ensures
        1 <= probes_within(low, high, target) <= k,
    decreases k,
{
    lemma2_to64();
    if k > 0 {
        lemma_pow2_unfold(k);
        let mid = midpoint(low, high);
        if high <= low || target == mid {
        } else if target > mid {
            lemma_probes_below_power(mid + 1, high, target, (k - 1) as nat);
        } else {
            lemma_probes_below_power(low, mid - 1, target, (k - 1) as nat);
        }
    }
}

/// A range of exactly 2^k candidates is searched in at most k questions,
/// except for its last candidate, which takes k + 1.
pub proof fn lemma_probes_at_power(low: int, high: int, target: int, k: nat)
    requires
        low <= target <= high,
        high - low + 1 == pow2(k),
    ensures
        target == high ==> probes_within(low, high, target) == k + 1,
        target < high ==> 1 <= probes_within(low, high, target) <= k,
    decreases k,
{
    lemma2_to64();
    if k > 0 {
        lemma_pow2_unfold(k);
        lemma_pow2_pos((k - 1) as nat);
        let mid = midpoint(low, high);
        if target == mid {
        } else if target > mid {
            lemma_probes_at_power(mid + 1, high, target, (k - 1) as nat);
        } else {
            lemma_probes_below_power(low, mid - 1, target, (k - 1) as nat);
        }
    }
}

/// Every integer is found within 64 questions, except `i64::MAX`, the last
/// candidate of the range, which takes 65.
pub proof fn lemma_probes_needed_bound(target: i64)
    ensures
        1 <= probes_needed(target) <= 65,
        target != i64::MAX ==> probes_needed(target) <= 64,
        target == i64::MAX ==> probes_needed(target) == 65,
{
    lemma2_to64();
    lemma_probes_at_power(i64::MIN as int, i64::MAX as int, target as int, 64);
}

} // verus!
