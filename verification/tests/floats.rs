use guesser::{guess_float, search_float, search_float_counted, Binary64, Guesser};
use std::cmp::Ordering;

fn find(x: f64) -> f64 {
    let judge = |e: Binary64| x.total_cmp(&f64::from_bits(e.to_bits()));
    let guessed: Binary64 = Guesser::guess(judge);
    f64::from_bits(guessed.to_bits())
}

#[test]
fn finds_each_listed_float() {
    for x in [
        -0.0,
        1.0,
        -f64::INFINITY,
        f64::NAN,
        -f64::NAN,
        10.0 - std::f64::consts::PI,
        0.0,
        42.1,
        f64::from_bits(u64::MAX),
        f64::from_bits(u64::MIN),
        f64::from_bits(1),
        f64::from_bits(i64::MIN as u64),
        f64::from_bits(i64::MAX as u64),
    ] {
        let guessed = find(x);
        assert_eq!(x.total_cmp(&guessed), Ordering::Equal);
        assert_eq!(x.to_bits(), guessed.to_bits());
    }
}

#[test]
fn negative_zero_is_not_positive_zero() {
    let guessed = find(-0.0);
    assert_eq!(guessed.to_bits(), 0x8000_0000_0000_0000);
    assert_ne!(guessed.to_bits(), 0.0f64.to_bits());
    assert_eq!(find(0.0).to_bits(), 0);
}

#[test]
fn nan_keeps_its_payload() {
    for bits in [
        0x7FF8_0000_0000_0001u64,
        0x7FF0_0000_DEAD_BEEF,
        0xFFF8_0000_0000_0000,
        0xFFF4_0000_0000_1234,
    ] {
        let x = f64::from_bits(bits);
        assert!(x.is_nan());
        assert_eq!(find(x).to_bits(), bits);
    }
}

#[test]
fn finds_the_infinities() {
    assert_eq!(find(f64::INFINITY).to_bits(), f64::INFINITY.to_bits());
    assert_eq!(find(f64::INFINITY), f64::INFINITY);
    assert_eq!(find(f64::NEG_INFINITY), f64::NEG_INFINITY);
}

#[test]
fn guess_float_returns_what_was_hidden() {
    for x in [0.0, -0.0, 1.5, -2.25, f64::MAX, f64::MIN, f64::MIN_POSITIVE, f64::NAN, f64::INFINITY]
    {
        let hidden = Binary64::from_bits(x.to_bits());
        assert_eq!(guess_float(hidden), hidden);
    }
}

#[test]
fn search_float_with_the_library_order() {
    let hidden = Binary64::from_bits((-1234.5f64).to_bits());
    let found = search_float(|e: Binary64| hidden.total_cmp(&e));
    assert_eq!(found, hidden);
    assert_eq!(f64::from_bits(found.to_bits()), -1234.5);
}

#[test]
fn float_search_stays_within_sixty_four_questions() {
    for x in [0.0, -0.0, 1.0, -1.0, 1.0e308, -1.0e308, 5.0e-324, f64::INFINITY, f64::NEG_INFINITY, f64::NAN]
    {
        let hidden = Binary64::from_bits(x.to_bits());
        let (found, probes) = search_float_counted(|e: Binary64| hidden.total_cmp(&e));
        assert_eq!(found, hidden);
        assert!(1 <= probes && probes <= 64, "{:?} took {}", hidden, probes);
    }
}

#[test]
fn negative_zero_is_the_first_candidate() {
    let hidden = Binary64::from_bits((-0.0f64).to_bits());
    let (found, probes) = search_float_counted(|e: Binary64| hidden.total_cmp(&e));
    assert_eq!(found, hidden);
    assert_eq!(probes, 1);
}

#[test]
fn last_pattern_of_the_order_takes_sixty_five_questions() {
    let hidden = Binary64::from_bits(0x7FFF_FFFF_FFFF_FFFF);
    let (found, probes) = search_float_counted(|e: Binary64| hidden.total_cmp(&e));
    assert_eq!(found, hidden);
    assert_eq!(probes, 65);
}

#[test]
fn total_cmp_agrees_with_the_float_total_order() {
    let values = [
        f64::from_bits(u64::MAX),
        -f64::NAN,
        f64::NEG_INFINITY,
        f64::MIN,
        -1.0,
        -f64::MIN_POSITIVE,
        -5.0e-324,
        -0.0,
        0.0,
        5.0e-324,
        f64::MIN_POSITIVE,
        1.0,
        f64::MAX,
        f64::INFINITY,
        f64::NAN,
        f64::from_bits(0x7FFF_FFFF_FFFF_FFFF),
    ];
    for (i, a) in values.iter().enumerate() {
        for (j, b) in values.iter().enumerate() {
            let left = Binary64::from_bits(a.to_bits());
            let right = Binary64::from_bits(b.to_bits());
            assert_eq!(left.total_cmp(&right), a.total_cmp(b));
            assert_eq!(left.total_cmp(&right), i.cmp(&j));
        }
    }
}
