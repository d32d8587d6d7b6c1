//! The selection policy as a mathematical function.
//!
//! `passes` tells which candidates may be chosen and `greater` tells when one
//! candidate is strictly better than another. The choice falls on the first
//! candidate that passes, and moves to a later one that passes only if that one
//! is strictly greater than the choice so far.

use vstd::prelude::*;

verus! {

/// Position of the candidate that the policy settles on, if any passes.
pub open spec fn chosen<T>(
    candidates: Seq<T>,
    passes: spec_fn(T) -> bool,
    greater: spec_fn(T, T) -> bool,
) -> Option<int>
    decreases candidates.len(),
{
    if candidates.len() == 0 {
        None
    } else {
        let newest = candidates.len() - 1;
        let before = chosen(candidates.drop_last(), passes, greater);
        if !passes(candidates[newest]) {
            before
        } else {
            match before {
                None => Some(newest),
                Some(k) => if greater(candidates[newest], candidates[k]) {
                    Some(newest)
                } else {
                    Some(k)
                },
            }
        }
    }
}

/// Whether candidate `i` becomes the choice at the moment it is examined.
pub open spec fn takes_over<T>(
    candidates: Seq<T>,
    passes: spec_fn(T) -> bool,
    greater: spec_fn(T, T) -> bool,
    i: int,
) -> bool {
    passes(candidates[i]) && match chosen(candidates.take(i), passes, greater) {
        None => true,
        Some(k) => greater(candidates[i], candidates[k]),
    }
}

/// `greater` is a strict weak ordering: nothing is greater than itself,
/// "greater" is transitive, and so is "not greater".
pub open spec fn strict_weak_ordering<T>(greater: spec_fn(T, T) -> bool) -> bool {
    &&& forall|a: T| !#[trigger] greater(a, a)
    &&& forall|a: T, b: T, c: T|
        #[trigger] greater(a, b) && #[trigger] greater(b, c) ==> greater(a, c)
    &&& forall|a: T, b: T, c: T|
        !#[trigger] greater(a, b) && !#[trigger] greater(b, c) ==> !greater(a, c)
}

/// Candidate `k` is the first of the best: it passes, no candidate that passes
/// is strictly greater, and it is strictly greater than every candidate before
/// it that passes.
pub open spec fn first_best<T>(
    candidates: Seq<T>,
    passes: spec_fn(T) -> bool,
    greater: spec_fn(T, T) -> bool,
    k: int,
) -> bool {
    &&& 0 <= k < candidates.len()
    &&& passes(candidates[k])
    &&& forall|j: int|
        0 <= j < candidates.len() && passes(#[trigger] candidates[j]) ==> !greater(
            candidates[j],
            candidates[k],
        )
    &&& forall|j: int|
        0 <= j < k && passes(#[trigger] candidates[j]) ==> greater(candidates[k], candidates[j])
}

/// The choice is a candidate that passes; there is none exactly when no
/// candidate passes.
pub proof fn lemma_chosen_passes<T>(
    candidates: Seq<T>,
    passes: spec_fn(T) -> bool,
    greater: spec_fn(T, T) -> bool,
)
    ensures
        match chosen(candidates, passes, greater) {
            Some(k) => 0 <= k < candidates.len() && passes(candidates[k]),
            None => forall|j: int| 0 <= j < candidates.len() ==> !passes(#[trigger] candidates[j]),
        },
    decreases candidates.len(),
{
    if candidates.len() > 0 {
        let front = candidates.drop_last();
        lemma_chosen_passes(front, passes, greater);
        assert(forall|j: int| 0 <= j < front.len() ==> front[j] == candidates[j]);
    }
}

/// Under a strict weak ordering the policy returns the greatest candidate that
/// passes, and the first of them where several are equally great.
pub proof fn lemma_chosen_is_first_best<T>(
    candidates: Seq<T>,
    passes: spec_fn(T) -> bool,
    greater: spec_fn(T, T) -> bool,
)
    requires
        strict_weak_ordering(greater),
    ensures
        chosen(candidates, passes, greater) matches Some(k) ==> first_best(
            candidates,
            passes,
            greater,
            k,
        ),
    decreases candidates.len(),
{
    if candidates.len() > 0 {
        let front = candidates.drop_last();
        let newest = candidates.len() - 1;
        lemma_chosen_is_first_best(front, passes, greater);
        lemma_chosen_passes(front, passes, greater);
        assert(forall|j: int| 0 <= j < front.len() ==> front[j] == candidates[j]);
        if passes(candidates[newest]) {
            if let Some(k) = chosen(front, passes, greater) {
                if greater(candidates[newest], candidates[k]) {
                    assert forall|j: int|
                        0 <= j < candidates.len() && passes(
                            #[trigger] candidates[j],
                        ) implies !greater(candidates[j], candidates[newest]) by {
                        if j < newest && greater(candidates[j], candidates[newest]) {
                            assert(greater(candidates[j], candidates[k]));
                        }
                    }
                    assert forall|j: int|
                        0 <= j < newest && passes(#[trigger] candidates[j]) implies greater(
                        candidates[newest],
                        candidates[j],
                    ) by {
                        if !greater(candidates[newest], candidates[j]) {
                            assert(!greater(candidates[j], candidates[k]));
                            assert(!greater(candidates[newest], candidates[k]));
                        }
                    }
                }
            }
        }
    }
}

} // verus!
