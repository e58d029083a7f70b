use guesser::{guess_integer, search_integer, search_integer_counted, Guesser};
use std::cmp::Ordering;

fn find(x: i64) -> i64 {
    let judge = |e: i64| x.cmp(&e);
    Guesser::guess(judge)
}

#[test]
fn finds_each_listed_integer() {
    for x in [
        0,
        1,
        i64::MIN,
        i64::MAX,
        i64::MIN + 1,
        i64::MAX - 1,
        i64::MIN / 2,
        i64::MAX / 2,
        i64::MIN / 2 + 1,
        42,
        -1,
    ] {
        let guessed = find(x);
        assert_eq!(x.cmp(&guessed), Ordering::Equal);
        assert_eq!(guessed, x);
    }
}

#[test]
fn finds_zero() {
    assert_eq!(search_integer(|e: i64| 0i64.cmp(&e)), 0);
}

#[test]
fn finds_the_minimum() {
    assert_eq!(search_integer(|e: i64| i64::MIN.cmp(&e)), i64::MIN);
}

#[test]
fn finds_the_maximum() {
    assert_eq!(search_integer(|e: i64| i64::MAX.cmp(&e)), i64::MAX);
}

#[test]
fn guess_integer_returns_what_was_hidden() {
    for x in [0, 1, -1, 42, -42, i64::MIN, i64::MAX, 1 << 40, -(1 << 40) - 7] {
        assert_eq!(guess_integer(x), x);
    }
}

#[test]
fn first_candidate_is_the_middle_of_the_range() {
    let (found, probes) = search_integer_counted(|e: i64| (-1i64).cmp(&e));
    assert_eq!(found, -1);
    assert_eq!(probes, 1);
}

#[test]
fn second_candidates_are_the_quarter_points() {
    let upper = (1i64 << 62) - 1;
    let lower = -(1i64 << 62) - 1;
    assert_eq!(search_integer_counted(|e: i64| upper.cmp(&e)), (upper, 2));
    assert_eq!(search_integer_counted(|e: i64| lower.cmp(&e)), (lower, 2));
}

#[test]
fn only_the_maximum_takes_sixty_five_questions() {
    let (found, probes) = search_integer_counted(|e: i64| i64::MAX.cmp(&e));
    assert_eq!(found, i64::MAX);
    assert_eq!(probes, 65);
    for x in [i64::MAX - 1, i64::MAX - 2, i64::MIN, i64::MIN + 1, 0, 1, -2, 12345] {
        let (found, probes) = search_integer_counted(|e: i64| x.cmp(&e));
        assert_eq!(found, x);
        assert!(1 <= probes && probes <= 64, "{} took {}", x, probes);
    }
}

#[test]
fn leaves_of_the_search_take_sixty_four_questions() {
    assert_eq!(search_integer_counted(|e: i64| i64::MIN.cmp(&e)), (i64::MIN, 64));
    assert_eq!(search_integer_counted(|e: i64| 0i64.cmp(&e)), (0, 64));
    assert_eq!(search_integer_counted(|e: i64| (i64::MAX - 1).cmp(&e)), (i64::MAX - 1, 64));
}

#[test]
fn judge_is_asked_as_often_as_counted() {
    let asked = std::cell::Cell::new(0u32);
    let hidden: i64 = 987_654_321;
    let (found, probes) = search_integer_counted(|e: i64| {
        asked.set(asked.get() + 1);
        hidden.cmp(&e)
    });
    assert_eq!(found, hidden);
    assert_eq!(asked.get(), probes);
    assert!(probes <= 64);
}
