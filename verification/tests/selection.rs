use std::cell::RefCell;
use std::cmp::Ordering;
use vulkanoob::selection::{
    examine, first_match, select_favorite, Examination, Selection, Stage, Verdict,
};

fn by_value(a: u32, b: u32) -> Ordering {
    a.cmp(&b)
}

fn verdict(selected: bool, preferred: bool) -> Verdict {
    Verdict { selected, preferred }
}

/// The policy, written as a plain fold.
fn fold_favorite(candidates: &[u32], keep: fn(u32) -> bool) -> Option<usize> {
    let mut favorite: Option<usize> = None;
    for (i, candidate) in candidates.iter().enumerate() {
        if keep(*candidate) {
            favorite = match favorite {
                None => Some(i),
                Some(k) if *candidate > candidates[k] => Some(i),
                Some(k) => Some(k),
            };
        }
    }
    favorite
}

fn is_even(x: u32) -> bool {
    x % 2 == 0
}

fn unwatched(_: u32, _: Stage) {}

/// A queue family as far as a selection looks at it.
#[derive(Clone, Copy, Debug, PartialEq)]
struct Family {
    id: u32,
    queues: usize,
    transfers: bool,
}

#[test]
fn favorite_is_the_first_of_the_greatest() {
    let candidates: Vec<u32> = vec![3, 8, 5, 8];
    let outcome = select_favorite(&candidates, |x: u32| x != 5, by_value);
    assert_eq!(outcome.favorite, Some(1));
    assert_eq!(
        outcome.verdicts,
        vec![verdict(true, true), verdict(true, true), verdict(false, false), verdict(true, false)]
    );
}

#[test]
fn empty_list_has_no_favorite() {
    let candidates: Vec<u32> = Vec::new();
    let outcome = select_favorite(&candidates, |_: u32| true, by_value);
    assert_eq!(outcome, Selection { favorite: None, verdicts: vec![] });
}

#[test]
fn no_favorite_where_nothing_passes() {
    let candidates: Vec<u32> = vec![1, 2, 3];
    let outcome = select_favorite(&candidates, |_: u32| false, by_value);
    assert_eq!(outcome.favorite, None);
    assert_eq!(outcome.verdicts, vec![verdict(false, false); 3]);
}

#[test]
fn first_candidate_that_passes_is_the_first_favorite() {
    let candidates: Vec<u32> = vec![9, 4, 2];
    let outcome = select_favorite(&candidates, |x: u32| x < 5, by_value);
    assert_eq!(outcome.favorite, Some(1));
    assert_eq!(
        outcome.verdicts,
        vec![verdict(false, false), verdict(true, true), verdict(true, false)]
    );
}

#[test]
fn equal_candidate_does_not_replace_the_favorite() {
    let candidates: Vec<u32> = vec![7, 7, 7];
    let outcome = select_favorite(&candidates, |_: u32| true, by_value);
    assert_eq!(outcome.favorite, Some(0));
    assert_eq!(
        outcome.verdicts,
        vec![verdict(true, true), verdict(true, false), verdict(true, false)]
    );
}

#[test]
fn strictly_greater_candidate_replaces_the_favorite() {
    let candidates: Vec<u32> = vec![1, 2, 3];
    let outcome = select_favorite(&candidates, |_: u32| true, by_value);
    assert_eq!(outcome.favorite, Some(2));
    assert_eq!(outcome.verdicts, vec![verdict(true, true); 3]);
}

#[test]
fn single_candidate_is_preferred_without_asking_the_preference() {
    let asked = RefCell::new(0);
    let candidates: Vec<u32> = vec![4];
    let outcome = select_favorite(
        &candidates,
        |_: u32| true,
        |a: u32, b: u32| {
            *asked.borrow_mut() += 1;
            a.cmp(&b)
        },
    );
    assert_eq!(outcome.favorite, Some(0));
    assert_eq!(*asked.borrow(), 0);
}

#[test]
fn preference_gets_the_candidate_first_and_the_favorite_second() {
    let asked: RefCell<Vec<(u32, u32)>> = RefCell::new(Vec::new());
    let candidates: Vec<u32> = vec![5, 9, 6, 1];
    let outcome = select_favorite(
        &candidates,
        |x: u32| x != 1,
        |a: u32, b: u32| {
            asked.borrow_mut().push((a, b));
            a.cmp(&b)
        },
    );
    assert_eq!(outcome.favorite, Some(1));
    assert_eq!(*asked.borrow(), vec![(9, 5), (6, 9)]);
}

#[test]
fn selection_agrees_with_a_plain_fold() {
    let mut state: u32 = 12345;
    for round in 0..200 {
        let mut candidates: Vec<u32> = Vec::new();
        for _ in 0..(round % 9) {
            state = state.wrapping_mul(1103515245).wrapping_add(12345);
            candidates.push((state >> 16) % 6);
        }
        let outcome = select_favorite(&candidates, is_even, by_value);
        assert_eq!(outcome.favorite, fold_favorite(&candidates, is_even));
        assert_eq!(outcome.verdicts.len(), candidates.len());
    }
}

#[test]
fn favorite_is_greatest_and_first_among_those_that_pass() {
    let candidates: Vec<u32> = vec![4, 1, 6, 9, 6, 2, 6];
    let outcome = select_favorite(&candidates, is_even, by_value);
    let k = outcome.favorite.unwrap();
    assert_eq!(k, 2);
    for (j, candidate) in candidates.iter().enumerate() {
        if is_even(*candidate) {
            assert!(*candidate <= candidates[k]);
            if j < k {
                assert!(*candidate < candidates[k]);
            }
        }
    }
}

#[test]
fn verdicts_say_which_candidates_passed() {
    let candidates: Vec<u32> = vec![2, 3, 4];
    let outcome = select_favorite(&candidates, is_even, by_value);
    let selected: Vec<bool> = outcome.verdicts.iter().map(|v| v.selected).collect();
    assert_eq!(selected, vec![true, false, true]);
}

#[test]
fn examination_completes_where_all_are_sound() {
    let candidates: Vec<u32> = vec![3, 8, 5, 8];
    let outcome = examine(&candidates, |_: u32| true, |x: u32| x != 5, by_value, unwatched);
    assert_eq!(
        outcome,
        Examination::Complete(select_favorite(&candidates, |x: u32| x != 5, by_value))
    );
}

#[test]
fn examination_gives_up_at_the_first_unsound_candidate() {
    let candidates: Vec<u32> = vec![3, 8, 0, 9, 0];
    let outcome = examine(&candidates, |x: u32| x != 0, |_: u32| true, by_value, unwatched);
    assert_eq!(
        outcome,
        Examination::GaveUp {
            position: 2,
            verdicts: vec![verdict(true, true), verdict(true, true)],
        }
    );
}

#[test]
fn examination_of_an_unsound_first_candidate_has_no_verdicts() {
    let candidates: Vec<u32> = vec![0, 1];
    let outcome = examine(&candidates, |x: u32| x != 0, |_: u32| true, by_value, unwatched);
    assert_eq!(outcome, Examination::GaveUp { position: 0, verdicts: vec![] });
}

#[test]
fn nothing_is_asked_about_candidates_after_an_unsound_one() {
    let asked: RefCell<Vec<u32>> = RefCell::new(Vec::new());
    let candidates: Vec<u32> = vec![5, 0, 7];
    let _ = examine(
        &candidates,
        |x: u32| x != 0,
        |x: u32| {
            asked.borrow_mut().push(x);
            true
        },
        by_value,
        unwatched,
    );
    assert_eq!(*asked.borrow(), vec![5]);
}

#[test]
fn first_match_finds_the_first_that_passes() {
    let candidates: Vec<u32> = vec![1, 3, 4, 6];
    assert_eq!(first_match(&candidates, &|x: &u32| *x % 2 == 0), Some(2));
}

#[test]
fn first_match_finds_nothing_where_nothing_passes() {
    let candidates: Vec<u32> = vec![1, 3];
    assert_eq!(first_match(&candidates, &|x: &u32| *x % 2 == 0), None);
    let empty: Vec<u32> = Vec::new();
    assert_eq!(first_match(&empty, &|_: &u32| true), None);
}

#[test]
fn first_match_stops_asking_at_the_match() {
    let asked: RefCell<Vec<u32>> = RefCell::new(Vec::new());
    let candidates: Vec<u32> = vec![1, 2, 3];
    let found = first_match(&candidates, &|x: &u32| {
        asked.borrow_mut().push(*x);
        *x == 2
    });
    assert_eq!(found, Some(1));
    assert_eq!(*asked.borrow(), vec![1, 2]);
}

#[test]
fn watcher_is_told_of_each_moment_in_order() {
    let seen: RefCell<Vec<(u32, Stage)>> = RefCell::new(Vec::new());
    let candidates: Vec<u32> = vec![4, 3, 6];
    let _ = examine(&candidates, |_: u32| true, is_even, by_value, |candidate: u32, stage: Stage| {
        seen.borrow_mut().push((candidate, stage))
    });
    assert_eq!(
        *seen.borrow(),
        vec![
            (4, Stage::Found),
            (4, Stage::Sound),
            (4, Stage::Judged(verdict(true, true))),
            (3, Stage::Found),
            (3, Stage::Sound),
            (3, Stage::Judged(verdict(false, false))),
            (6, Stage::Found),
            (6, Stage::Sound),
            (6, Stage::Judged(verdict(true, true))),
        ]
    );
}

#[test]
fn watcher_hears_of_an_unsound_candidate_only_that_it_came_up() {
    let seen: RefCell<Vec<(u32, Stage)>> = RefCell::new(Vec::new());
    let candidates: Vec<u32> = vec![2, 0, 8];
    let _ = examine(
        &candidates,
        |x: u32| x != 0,
        is_even,
        by_value,
        |candidate: u32, stage: Stage| seen.borrow_mut().push((candidate, stage)),
    );
    assert_eq!(
        *seen.borrow(),
        vec![
            (2, Stage::Found),
            (2, Stage::Sound),
            (2, Stage::Judged(verdict(true, true))),
            (0, Stage::Found),
        ]
    );
}

#[test]
fn watcher_is_told_before_the_filter_is_asked() {
    let record: RefCell<Vec<&'static str>> = RefCell::new(Vec::new());
    let candidates: Vec<u32> = vec![1];
    let _ = examine(
        &candidates,
        |_: u32| {
            record.borrow_mut().push("sound?");
            true
        },
        |_: u32| {
            record.borrow_mut().push("filter?");
            true
        },
        by_value,
        |_: u32, stage: Stage| {
            record.borrow_mut().push(match stage {
                Stage::Found => "found",
                Stage::Sound => "sound",
                Stage::Judged(_) => "judged",
            })
        },
    );
    assert_eq!(*record.borrow(), vec!["found", "sound?", "sound", "filter?", "judged"]);
}

#[test]
fn no_family_is_picked_where_the_filter_turns_all_down() {
    let families = vec![
        Family { id: 0, queues: 16, transfers: false },
        Family { id: 1, queues: 2, transfers: false },
    ];
    let outcome = select_favorite(
        &families,
        |family: Family| family.transfers,
        |family: Family, favorite: Family| family.queues.cmp(&favorite.queues),
    );
    assert_eq!(outcome.favorite, None);
    assert!(outcome.verdicts.iter().all(|verdict| !verdict.selected));
}

#[test]
fn first_family_is_picked_where_all_are_equally_good() {
    let families = vec![
        Family { id: 0, queues: 1, transfers: true },
        Family { id: 1, queues: 1, transfers: true },
        Family { id: 2, queues: 1, transfers: true },
    ];
    let outcome = select_favorite(
        &families,
        |family: Family| family.transfers,
        |_: Family, _: Family| Ordering::Equal,
    );
    assert_eq!(outcome.favorite.map(|k| families[k].id), Some(0));
}

#[test]
fn family_with_most_queues_is_picked_and_the_first_of_equals() {
    let families = vec![
        Family { id: 0, queues: 16, transfers: false },
        Family { id: 1, queues: 2, transfers: true },
        Family { id: 2, queues: 8, transfers: true },
        Family { id: 3, queues: 8, transfers: true },
        Family { id: 4, queues: 1, transfers: true },
    ];
    let outcome = select_favorite(
        &families,
        |family: Family| family.transfers,
        |family: Family, favorite: Family| family.queues.cmp(&favorite.queues),
    );
    assert_eq!(outcome.favorite.map(|k| families[k].id), Some(2));
}
