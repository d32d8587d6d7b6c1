//! The selection policy: out of a list of candidates, keep those that pass a
//! filter and settle on a favorite among them.
//!
//! Candidates are examined in order. The first one that passes the filter
//! becomes the favorite; a later one that passes replaces the favorite only if
//! the preference ranks it strictly greater than the current favorite.

use crate::policy::{
    chosen, first_best, lemma_chosen_is_first_best, lemma_chosen_passes, strict_weak_ordering,
    takes_over,
};
use std::cmp::Ordering;
use vstd::prelude::*;

verus! {

/// What became of one candidate.
#[derive(Clone, Copy, Debug, PartialEq, Eq)]
pub struct Verdict {
    /// The candidate passed the filter.
    pub selected: bool,
    /// The candidate passed the filter and became the favorite when it was
    /// examined.
    pub preferred: bool,
}

/// The outcome of a selection over a list of candidates.
#[derive(Debug, PartialEq, Eq)]
pub struct Selection {
    /// Position of the favorite in the list, if any candidate passed the filter.
    pub favorite: Option<usize>,
    /// One verdict per candidate, in the order of the list.
    pub verdicts: Vec<Verdict>,
}

/// Position of the last verdict that names a favorite, if there is one.
pub open spec fn favorite_of(verdicts: Seq<Verdict>) -> Option<int>
    decreases verdicts.len(),
{
    if verdicts.len() == 0 {
        None
    } else if verdicts.last().preferred {
        Some(verdicts.len() - 1)
    } else {
        favorite_of(verdicts.drop_last())
    }
}

/// The number of items of a sequence, as an integer.
pub open spec fn count<A>(items: Seq<A>) -> int {
    items.len() as int
}

/// A position of the executable kind, read as a mathematical one.
pub open spec fn position(index: Option<usize>) -> Option<int> {
    match index {
        Some(k) => Some(k as int),
        None => None,
    }
}

/// The filter may answer `verdict` when asked about `candidate`.
pub open spec fn filter_says<T, F: Fn(T) -> bool>(filter: F, candidate: T, verdict: bool) -> bool {
    filter.ensures((candidate,), verdict)
}

/// The preference may rank `candidate` strictly greater than `favorite`.
pub open spec fn may_prefer<T, P: Fn(T, T) -> Ordering>(
    preference: P,
    candidate: T,
    favorite: T,
) -> bool {
    preference.ensures((candidate, favorite), Ordering::Greater)
}

/// The preference may rank `candidate` equal to or less than `favorite`.
pub open spec fn may_decline<T, P: Fn(T, T) -> Ordering>(
    preference: P,
    candidate: T,
    favorite: T,
) -> bool {
    preference.ensures((candidate, favorite), Ordering::Equal) || preference.ensures(
        (candidate, favorite),
        Ordering::Less,
    )
}

/// The verdict at position `i` is the one that the policy gives, knowing the
/// verdicts before it: the filter decides `selected`; a selected candidate is
/// preferred if there is no favorite yet, and otherwise exactly when the
/// preference ranks it strictly greater than the favorite so far.
pub open spec fn verdict_follows<T, F: Fn(T) -> bool, P: Fn(T, T) -> Ordering>(
    candidates: Seq<T>,
    filter: F,
    preference: P,
    verdicts: Seq<Verdict>,
    i: int,
) -> bool {
    let verdict = verdicts[i];
    &&& filter_says(filter, candidates[i], verdict.selected)
    &&& verdict.preferred ==> verdict.selected
    &&& verdict.selected ==> match favorite_of(verdicts.take(i)) {
        None => verdict.preferred,
        Some(k) => if verdict.preferred {
            may_prefer(preference, candidates[i], candidates[k])
        } else {
            may_decline(preference, candidates[i], candidates[k])
        },
    }
}

/// `verdicts` and `favorite` are what the policy gives for `candidates`.
pub open spec fn selection_follows<T, F: Fn(T) -> bool, P: Fn(T, T) -> Ordering>(
    candidates: Seq<T>,
    filter: F,
    preference: P,
    verdicts: Seq<Verdict>,
    favorite: Option<int>,
) -> bool {
    &&& verdicts.len() == candidates.len()
    &&& forall|i: int|
        0 <= i < candidates.len() ==> #[trigger] verdict_follows(
            candidates,
            filter,
            preference,
            verdicts,
            i,
        )
    &&& favorite == favorite_of(verdicts)
}

/// The favorite named by a list of verdicts is a position in the list, and the
/// verdict there is `preferred`; no later verdict is.
pub proof fn lemma_favorite_of(verdicts: Seq<Verdict>)
    ensures
        match favorite_of(verdicts) {
            Some(k) => {
                &&& 0 <= k < verdicts.len()
                &&& verdicts[k].preferred
                &&& forall|j: int| k < j < verdicts.len() ==> !verdicts[j].preferred
            },
            None => forall|j: int| 0 <= j < verdicts.len() ==> !verdicts[j].preferred,
        },
    decreases verdicts.len(),
{
    if verdicts.len() > 0 && !verdicts.last().preferred {
        let front = verdicts.drop_last();
        lemma_favorite_of(front);
        assert(forall|j: int| 0 <= j < front.len() ==> front[j] == verdicts[j]);
    }
}

/// Under a policy-conforming list of verdicts, the favorite after the first
/// `n` candidates is missing exactly when none of them was selected, and
/// otherwise is a selected candidate among them.
proof fn lemma_favorite_among_selected<T, F: Fn(T) -> bool, P: Fn(T, T) -> Ordering>(
    candidates: Seq<T>,
    filter: F,
    preference: P,
    verdicts: Seq<Verdict>,
    n: int,
)
    requires
        verdicts.len() == candidates.len(),
        0 <= n <= candidates.len(),
        forall|i: int|
            0 <= i < n ==> #[trigger] verdict_follows(candidates, filter, preference, verdicts, i),
    ensures
        match favorite_of(verdicts.take(n)) {
            Some(k) => 0 <= k < n && verdicts[k].selected && verdicts[k].preferred,
            None => forall|j: int| 0 <= j < n ==> !verdicts[j].selected,
        },
    decreases n,
{
    if n > 0 {
        let m = n - 1;
        lemma_favorite_among_selected(candidates, filter, preference, verdicts, m);
        assert(verdicts.take(n).drop_last() =~= verdicts.take(m));
        assert(verdicts.take(n).last() == verdicts[m]);
        assert(verdict_follows(candidates, filter, preference, verdicts, m));
    }
}

/// The favorite was selected: where no candidate passes the filter there is no
/// favorite, and otherwise the favorite is a candidate that the filter let
/// pass.
pub proof fn lemma_favorite_was_selected<T, F: Fn(T) -> bool, P: Fn(T, T) -> Ordering>(
    candidates: Seq<T>,
    filter: F,
    preference: P,
    verdicts: Seq<Verdict>,
    favorite: Option<int>,
)
    requires
        selection_follows(candidates, filter, preference, verdicts, favorite),
    ensures
        favorite is None <==> forall|j: int| 0 <= j < candidates.len() ==> !verdicts[j].selected,
        favorite matches Some(k) ==> 0 <= k < candidates.len() && verdicts[k].selected
            && filter_says(filter, candidates[k], true),
{
    let n = count(candidates);
    lemma_favorite_among_selected(candidates, filter, preference, verdicts, n);
    assert(verdicts.take(n) =~= verdicts);
    if let Some(k) = favorite {
        assert(verdict_follows(candidates, filter, preference, verdicts, k));
    }
}

/// On these candidates the filter computes `passes`: whatever it answers is
/// the value of `passes`.
pub open spec fn filter_computes<T, F: Fn(T) -> bool>(
    filter: F,
    candidates: Seq<T>,
    passes: spec_fn(T) -> bool,
) -> bool {
    forall|i: int, answer: bool|
        0 <= i < candidates.len() && #[trigger] filter_says(filter, candidates[i], answer)
            ==> answer == passes(candidates[i])
}

/// On these candidates the preference computes `greater`: it may answer
/// `Ordering::Greater` for a pair only where `greater` holds of it, and
/// anything else only where it does not.
pub open spec fn preference_computes<T, P: Fn(T, T) -> Ordering>(
    preference: P,
    candidates: Seq<T>,
    greater: spec_fn(T, T) -> bool,
) -> bool {
    &&& forall|i: int, j: int|
        0 <= i < candidates.len() && 0 <= j < candidates.len() && #[trigger] may_prefer(
            preference,
            candidates[i],
            candidates[j],
        ) ==> greater(candidates[i], candidates[j])
    &&& forall|i: int, j: int|
        0 <= i < candidates.len() && 0 <= j < candidates.len() && #[trigger] may_decline(
            preference,
            candidates[i],
            candidates[j],
        ) ==> !greater(candidates[i], candidates[j])
}

/// Where the filter computes `passes` and the preference computes `greater`,
/// the outcome is the one that [`chosen`] and [`takes_over`] define: the
/// policy is a function of the candidates.
pub proof fn lemma_selection_is_chosen<T, F: Fn(T) -> bool, P: Fn(T, T) -> Ordering>(
    candidates: Seq<T>,
    filter: F,
    preference: P,
    verdicts: Seq<Verdict>,
    favorite: Option<int>,
    passes: spec_fn(T) -> bool,
    greater: spec_fn(T, T) -> bool,
)
    requires
        selection_follows(candidates, filter, preference, verdicts, favorite),
        filter_computes(filter, candidates, passes),
        preference_computes(preference, candidates, greater),
    ensures
        favorite == chosen(candidates, passes, greater),
        forall|i: int|
            0 <= i < candidates.len() ==> verdicts[i] == (Verdict {
                selected: passes(candidates[i]),
                preferred: takes_over(candidates, passes, greater, i),
            }),
{
    let n = count(candidates);
    lemma_verdicts_are_chosen(candidates, filter, preference, verdicts, passes, greater, n);
    assert(verdicts.take(n) =~= verdicts);
    assert(candidates.take(n) =~= candidates);
}

/// The favorite is the greatest candidate that passes the filter, and the
/// first of them where several are equally great: where the filter computes
/// `passes` and the preference computes a strict weak ordering `greater`, the
/// favorite passes, no candidate that passes is strictly greater, and it is
/// strictly greater than every candidate before it that passes. There is no
/// favorite exactly when no candidate passes.
pub proof fn lemma_favorite_is_first_best<T, F: Fn(T) -> bool, P: Fn(T, T) -> Ordering>(
    candidates: Seq<T>,
    filter: F,
    preference: P,
    verdicts: Seq<Verdict>,
    favorite: Option<int>,
    passes: spec_fn(T) -> bool,
    greater: spec_fn(T, T) -> bool,
)
    requires
        selection_follows(candidates, filter, preference, verdicts, favorite),
        filter_computes(filter, candidates, passes),
        preference_computes(preference, candidates, greater),
        strict_weak_ordering(greater),
    ensures
        favorite matches Some(k) ==> first_best(candidates, passes, greater, k),
        favorite is None <==> forall|j: int|
            0 <= j < candidates.len() ==> !passes(#[trigger] candidates[j]),
{
    lemma_selection_is_chosen(
        candidates,
        filter,
        preference,
        verdicts,
        favorite,
        passes,
        greater,
    );
    lemma_chosen_is_first_best(candidates, passes, greater);
    lemma_chosen_passes(candidates, passes, greater);
}

/// The inductive step behind [`lemma_selection_is_chosen`], over the first `n`
/// candidates.
proof fn lemma_verdicts_are_chosen<T, F: Fn(T) -> bool, P: Fn(T, T) -> Ordering>(
    candidates: Seq<T>,
    filter: F,
    preference: P,
    verdicts: Seq<Verdict>,
    passes: spec_fn(T) -> bool,
    greater: spec_fn(T, T) -> bool,
    n: int,
)
    requires
        verdicts.len() == candidates.len(),
        0 <= n <= candidates.len(),
        forall|i: int|
            0 <= i < n ==> #[trigger] verdict_follows(candidates, filter, preference, verdicts, i),
        filter_computes(filter, candidates, passes),
        preference_computes(preference, candidates, greater),
    ensures
        favorite_of(verdicts.take(n)) == chosen(candidates.take(n), passes, greater),
        forall|i: int|
            0 <= i < n ==> verdicts[i] == (Verdict {
                selected: passes(candidates[i]),
                preferred: takes_over(candidates, passes, greater, i),
            }),
    decreases n,
{
    if n > 0 {
        let m = n - 1;
        lemma_verdicts_are_chosen(candidates, filter, preference, verdicts, passes, greater, m);
        lemma_chosen_passes(candidates.take(m), passes, greater);
        assert(verdicts.take(n).drop_last() =~= verdicts.take(m));
        assert(candidates.take(n).drop_last() =~= candidates.take(m));
        assert(verdict_follows(candidates, filter, preference, verdicts, m));
        assert(filter_says(filter, candidates[m], verdicts[m].selected));
        if let Some(k) = chosen(candidates.take(m), passes, greater) {
            assert(candidates.take(m)[k] == candidates[k]);
        }
    } else {
        assert(verdicts.take(n) =~= Seq::<Verdict>::empty());
    }
}

/// Position of the first candidate that passes the filter, if there is one.
///
/// The filter is asked about the candidates in order, and about none after the
/// first that passes.
pub fn first_match<T, F: Fn(&T) -> bool>(candidates: &Vec<T>, filter: &F) -> (found: Option<usize>)
    requires
        forall|i: int| 0 <= i < candidates.len() ==> filter.requires((&candidates@[i],)),
    ensures
        match position(found) {
            Some(k) => {
                &&& 0 <= k < candidates.len()
                &&& filter.ensures((&candidates@[k],), true)
                &&& forall|i: int| 0 <= i < k ==> filter.ensures((&candidates@[i],), false)
            },
            None => forall|i: int|
                0 <= i < candidates.len() ==> filter.ensures((&candidates@[i],), false),
        },
{
    let mut i: usize = 0;
    while i < candidates.len()
        invariant
            i <= candidates.len(),
            forall|k: int| 0 <= k < candidates.len() ==> filter.requires((&candidates@[k],)),
            forall|k: int| 0 <= k < i ==> filter.ensures((&candidates@[k],), false),
        decreases candidates.len() - i,
    {
        if filter(&candidates[i]) {
            return Some(i);
        }
        i += 1;
    }
    None
}

/// A moment in the examination of one candidate.
#[derive(Clone, Copy, Debug, PartialEq, Eq)]
pub enum Stage {
    /// The candidate has come up and nothing has been asked about it yet.
    Found,
    /// The candidate is sound; the filter is asked next.
    Sound,
    /// Filter and preference have spoken; this is the verdict.
    Judged(Verdict),
}

/// How an examination of a list of candidates ended.
#[derive(Debug, PartialEq, Eq)]
pub enum Examination {
    /// Every candidate was sound, and the selection ran to the end.
    Complete(Selection),
    /// The examination was given up at an unsound candidate.
    GaveUp {
        /// Position of the unsound candidate.
        position: usize,
        /// The verdicts on the candidates before it.
        verdicts: Vec<Verdict>,
    },
}

/// `examination` is how the policy ends on `candidates`, where each candidate
/// has to be sound before it is considered: either all of them are sound and
/// the selection is the policy's, or the examination stopped at the first
/// unsound candidate with the policy's verdicts on those before it.
pub open spec fn examination_follows<
    T,
    S: Fn(T) -> bool,
    F: Fn(T) -> bool,
    P: Fn(T, T) -> Ordering,
>(candidates: Seq<T>, sound: S, filter: F, preference: P, examination: Examination) -> bool {
    match examination {
        Examination::Complete(selection) => {
            &&& forall|i: int|
                0 <= i < candidates.len() ==> #[trigger] filter_says(sound, candidates[i], true)
            &&& selection_follows(
                candidates,
                filter,
                preference,
                selection.verdicts@,
                position(selection.favorite),
            )
        },
        Examination::GaveUp { position, verdicts } => {
            &&& position < candidates.len()
            &&& position == verdicts@.len()
            &&& filter_says(sound, candidates[count(verdicts@)], false)
            &&& forall|i: int|
                0 <= i < verdicts@.len() ==> #[trigger] filter_says(sound, candidates[i], true)
            &&& selection_follows(
                candidates.take(count(verdicts@)),
                filter,
                preference,
                verdicts@,
                favorite_of(verdicts@),
            )
        },
    }
}

/// Examines the candidates in order, and gives up at the first that is not
/// sound.
///
/// Each candidate is first put to `sound`. Where that fails, the examination
/// ends there, and neither filter nor preference is asked about that candidate
/// or a later one. A sound candidate is then handled as [`select_favorite`]
/// handles it.
///
/// `watch` is told of each candidate as the examination goes: when the
/// candidate comes up, when it has proved sound, and when its verdict is in.
/// A caller that keeps a record of the examination writes it there, so that
/// the record grows candidate by candidate.
pub fn examine<
    T: Copy,
    S: Fn(T) -> bool,
    F: Fn(T) -> bool,
    P: Fn(T, T) -> Ordering,
    W: Fn(T, Stage),
>(candidates: &Vec<T>, sound: S, filter: F, preference: P, watch: W) -> (examination: Examination)
    requires
        forall|i: int, stage: Stage|
            0 <= i < candidates.len() ==> watch.requires((candidates@[i], stage)),
        forall|i: int| 0 <= i < candidates.len() ==> sound.requires((candidates@[i],)),
        forall|i: int| 0 <= i < candidates.len() ==> filter.requires((candidates@[i],)),
        forall|i: int, j: int|
            0 <= j < i < candidates.len() ==> preference.requires((candidates@[i], candidates@[j])),
    ensures
        examination_follows(candidates@, sound, filter, preference, examination),
{
    let mut verdicts: Vec<Verdict> = Vec::new();
    let mut favorite: Option<usize> = None;
    let mut i: usize = 0;
    while i < candidates.len()
        invariant
            i <= candidates.len(),
            verdicts@.len() == i,
            forall|k: int, stage: Stage|
                0 <= k < candidates.len() ==> watch.requires((candidates@[k], stage)),
            forall|k: int| 0 <= k < candidates.len() ==> sound.requires((candidates@[k],)),
            forall|k: int| 0 <= k < candidates.len() ==> filter.requires((candidates@[k],)),
            forall|k: int, j: int|
                0 <= j < k < candidates.len() ==> preference.requires(
                    (candidates@[k], candidates@[j]),
                ),
            forall|k: int|
                0 <= k < verdicts@.len() ==> #[trigger] filter_says(sound, candidates@[k], true),
            forall|k: int|
                0 <= k < verdicts@.len() ==> #[trigger] verdict_follows(
                    candidates@,
                    filter,
                    preference,
                    verdicts@,
                    k,
                ),
            position(favorite) == favorite_of(verdicts@),
        decreases candidates.len() - i,
    {
        let ghost before = verdicts@;
        proof {
            lemma_favorite_of(before);
        }
        let candidate = candidates[i];
        watch(candidate, Stage::Found);
        if !sound(candidate) {
            proof {
                let seen = candidates@.take(count(before));
                assert forall|k: int| 0 <= k < seen.len() implies #[trigger] verdict_follows(
                    seen,
                    filter,
                    preference,
                    before,
                    k,
                ) by {
                    lemma_favorite_of(before.take(k));
                    assert(verdict_follows(candidates@, filter, preference, before, k));
                }
            }
            return Examination::GaveUp { position: i, verdicts };
        }
        watch(candidate, Stage::Sound);
        let selected = filter(candidate);
        let mut preferred = false;
        if selected {
            preferred = match favorite {
                None => true,
                Some(k) => match preference(candidate, candidates[k]) {
                    Ordering::Greater => true,
                    _ => false,
                },
            };
            if preferred {
                favorite = Some(i);
            }
        }
        let verdict = Verdict { selected, preferred };
        watch(candidate, Stage::Judged(verdict));
        verdicts.push(verdict);
        proof {
            let after = verdicts@;
            assert(after.drop_last() =~= before);
            assert forall|k: int| 0 <= k < after.len() implies #[trigger] verdict_follows(
                candidates@,
                filter,
                preference,
                after,
                k,
            ) by {
                if k < before.len() {
                    assert(after.take(k) =~= before.take(k));
                    assert(verdict_follows(candidates@, filter, preference, before, k));
                } else {
                    assert(after.take(k) =~= before);
                }
            }
        }
        i += 1;
    }
    Examination::Complete(Selection { favorite, verdicts })
}

/// Examines the candidates in order and settles on a favorite.
///
/// The first candidate that passes `filter` becomes the favorite. A later
/// candidate that passes replaces it only if `preference`, asked about that
/// candidate and the current favorite in this order, answers
/// `Ordering::Greater`. The result holds the favorite's position and, for
/// every candidate, whether it passed and whether it became the favorite.
pub fn select_favorite<T: Copy, F: Fn(T) -> bool, P: Fn(T, T) -> Ordering>(
    candidates: &Vec<T>,
    filter: F,
    preference: P,
) -> (selection: Selection)
    requires
        forall|i: int| 0 <= i < candidates.len() ==> filter.requires((candidates@[i],)),
        forall|i: int, j: int|
            0 <= j < i < candidates.len() ==> preference.requires((candidates@[i], candidates@[j])),
    ensures
        selection_follows(
            candidates@,
            filter,
            preference,
            selection.verdicts@,
            position(selection.favorite),
        ),
        selection.verdicts@.len() == candidates@.len(),
        selection.favorite is None <==> forall|j: int|
            0 <= j < candidates@.len() ==> !selection.verdicts@[j].selected,
        position(selection.favorite) matches Some(k) ==> 0 <= k < candidates@.len()
            && selection.verdicts@[k].selected && filter_says(filter, candidates@[k], true),
{
    let always = |candidate: T| -> (sound: bool)
        ensures
            sound,
        { true };
    let unwatched = |candidate: T, stage: Stage| {};
    match examine(candidates, always, filter, preference, unwatched) {
        Examination::Complete(selection) => {
            proof {
                lemma_favorite_was_selected(
                    candidates@,
                    filter,
                    preference,
                    selection.verdicts@,
                    position(selection.favorite),
                );
            }
            selection
        },
        Examination::GaveUp { verdicts, .. } => {
            proof {
                assert(filter_says(always, candidates@[count(verdicts@)], false));
                assert(false);
            }
            Selection { favorite: None, verdicts }
        },
    }
}

} // verus!
