//! The shared call contract: a domain whose values can be guessed.

use crate::integer::search_integer;
use std::cmp::Ordering;
use vstd::prelude::*;

verus! {

/// What a judge that hides the value of rank `target` answers when asked
/// about the value of rank `candidate`: how the hidden value compares to it.
pub open spec fn verdict(target: int, candidate: int) -> Ordering {
    if target < candidate {
        Ordering::Less
    } else if target == candidate {
        Ordering::Equal
    } else {
        Ordering::Greater
    }
}

/// `judge` hides `target`: whatever it answers for a candidate is how
/// `target` compares to that candidate in the domain's order.
pub open spec fn hides<T: Ranked, F: Fn(T) -> Ordering>(judge: F, target: T) -> bool {
    forall|e: T, o: Ordering| #[trigger]
        judge.ensures((e,), o) ==> o == verdict(target.rank(), e.rank())
}

/// A totally ordered domain: each value has its place in one ascending line.
pub trait Ranked: Sized {
    /// The place of a value in the ascending order of its domain.
    spec fn rank(self) -> int;

    /// Distinct values have distinct ranks.
    proof fn lemma_rank_injective(a: Self, b: Self)
        requires
            a.rank() == b.rank(),
        ensures
            a == b,
    ;
}

/// A totally ordered domain in which a hidden value can be found by asking a
/// judge about candidates.
pub trait Guesser: Ranked {
    /// Finds the value that `judge` hides. The judge must accept every
    /// candidate and answer as one hidden value dictates; the value returned
    /// is that hidden value, and the judge has called it equal.
    fn guess<F>(judge: F) -> (found: Self) where F: Fn(Self) -> Ordering
        requires
            forall|e: Self| #[trigger] judge.requires((e,)),
            exists|t: Self| hides(judge, t),
        ensures
            judge.ensures((found,), Ordering::Equal),
            forall|t: Self| hides(judge, t) ==> found == t,
    ;
}

impl Ranked for i64 {
    open spec fn rank(self) -> int {
        self as int
    }

    proof fn lemma_rank_injective(a: Self, b: Self) {
    }
}

impl Guesser for i64 {
    fn guess<F>(judge: F) -> (found: Self) where F: Fn(Self) -> Ordering {
        search_integer(judge)
    }
}

} // verus!
