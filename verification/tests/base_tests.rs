use rusty_faker_core::{Error, Generator};

fn fake() -> Generator {
    Generator::seeded("en_US", 1).unwrap()
}

#[test]
fn random_int_respects_range_and_step() {
    let mut g = fake();
    for _ in 0..1000 {
        let n = g.random_int(10, 20, 5).unwrap();
        assert!([10, 15, 20].contains(&n), "{n}");
    }
    assert_eq!(g.random_int(5, 5, 1).unwrap(), 5);
    assert!(g.random_int(5, 4, 1).is_err());
    assert!(g.random_int(0, 10, 0).is_err());
    let n = g.random_int(10, 0, -2).unwrap();
    assert!((1..=10).contains(&n) && n % 2 == 0);
}

#[test]
fn numerify_leaves_no_placeholders() {
    let mut g = fake();
    for _ in 0..200 {
        let s = g.numerify("#-%-$-!-@");
        assert!(!s.contains(['#', '%', '$', '!', '@']), "{s}");
        let first = s.chars().next().unwrap();
        assert!(first.is_ascii_digit());
    }
}

#[test]
fn bothify_lexify_hexify() {
    let mut g = fake();
    let s = g.bothify("## ??", None).unwrap();
    assert_eq!(s.len(), 5);
    assert!(s[..2].chars().all(|c| c.is_ascii_digit()) && s[3..].chars().all(|c| c.is_ascii_alphabetic()));
    assert_eq!(g.lexify("??", Some("x")).unwrap(), "xx");
    assert_eq!(g.lexify("?", Some("")), Err(Error::EmptySequence));
    assert!(g.hexify("^^^^", true).chars().all(|c| c.is_ascii_hexdigit() && !c.is_ascii_lowercase()));
}

#[test]
fn random_number_bounds() {
    let mut g = fake();
    for _ in 0..500 {
        let n = g.random_number(Some(3), true).unwrap();
        assert!((100..=999).contains(&n));
    }
    assert!(g.random_number(Some(0), true).is_err());
    assert!(g.random_number(Some(-1), false).is_err());
    assert_eq!(g.random_number(Some(0), false).unwrap(), 0);
}

#[test]
fn element_indices_rules() {
    let mut g = fake();
    let unique = g.random_element_indices(5, None, Some(5), true).unwrap();
    let mut sorted = unique.clone();
    sorted.sort_unstable();
    assert_eq!(sorted, vec![0, 1, 2, 3, 4]);
    assert!(g.random_element_indices(2, None, Some(3), true).is_err());
    let weighted = g.random_element_indices(3, Some(&vec![0, 1, 0]), Some(50), false).unwrap();
    assert!(weighted.iter().all(|&i| i == 1));
    let wu = g.random_element_indices(3, Some(&vec![1, 2, 3]), Some(3), true).unwrap();
    let mut wu_sorted = wu.clone();
    wu_sorted.sort_unstable();
    assert_eq!(wu_sorted, vec![0, 1, 2]);
}

#[test]
fn randomize_nb_elements_bounds() {
    let mut g = fake();
    assert_eq!(g.randomize_nb_elements(10, true, true, None, None), 10);
    for _ in 0..500 {
        let n = g.randomize_nb_elements(10, false, false, Some(7), Some(13));
        assert!((7..=13).contains(&n));
    }
}

#[test]
fn locale_codes_look_right() {
    let mut g = fake();
    let locale = g.locale();
    assert!(locale.contains('_'), "{locale}");
}

#[test]
fn random_int_errors_and_extremes() {
    let mut g = fake();
    assert_eq!(g.random_int(0, 10, 0).unwrap_err().message(), "zero step for randrange()");
    assert_eq!(g.random_int(5, 4, 1).unwrap_err().message(), "empty range in randrange(5, 5, 1)");
    assert_eq!(g.random_int(i64::MIN, i64::MAX, 1), Err(Error::Overflow("range too large".into())));
    let wide = g.random_int(i64::MIN, i64::MAX - 1, 1).unwrap();
    assert!(wide < i64::MAX);
    assert_eq!(g.random_int(-3, -3, 7).unwrap(), -3);
}

#[test]
fn element_index_errors() {
    let mut g = fake();
    assert_eq!(
        g.random_element_indices(3, Some(&vec![1, 2]), Some(1), false).unwrap_err().message(),
        "weights must have the same length as elements"
    );
    assert_eq!(
        g.random_element_indices(0, None, None, false).unwrap_err().message(),
        "empty range in randrange(1, 1)"
    );
    assert_eq!(g.random_element_indices(0, None, Some(1), false), Err(Error::EmptySequence));
    assert_eq!(g.random_element_indices(0, None, Some(0), false), Ok(vec![]));
    assert!(g.random_element_indices(2, Some(&vec![0, 0]), Some(1), false).is_err());
    let picks = g.random_element_indices(4, None, None, false).unwrap();
    assert!((1..=4).contains(&picks.len()) && picks.iter().all(|&i| i < 4));
}

#[test]
fn samples_are_distinct() {
    let mut g = fake();
    for _ in 0..100 {
        let mut s = g.sample_indices(10, 4);
        assert_eq!(s.len(), 4);
        s.sort_unstable();
        s.dedup();
        assert_eq!(s.len(), 4);
    }
    assert_eq!(g.sample_indices(3, 9).len(), 3);
}

#[test]
fn digits_and_letters() {
    let mut g = fake();
    for _ in 0..200 {
        assert!(g.random_digit() <= 9);
        assert!((1..=9).contains(&g.random_digit_not_null()));
        assert!((2..=9).contains(&g.random_digit_above_two()));
        assert!(g.random_lowercase_letter().is_ascii_lowercase());
        assert!(g.random_uppercase_letter().is_ascii_uppercase());
        assert!(g.random_letter().is_ascii_alphabetic());
        if let Some(d) = g.random_digit_not_null_or_empty() {
            assert!((1..=9).contains(&d));
        }
    }
    assert_eq!(g.random_letters(7).len(), 7);
    assert_eq!(g.lexify("no marks", Some("")).unwrap(), "no marks");
    assert_eq!(g.random_number(Some(39), false).unwrap_err().message(), "at most 38 digits are supported");
    assert!(!g.language_code().is_empty());
}

#[test]
fn digit_draws_replay_from_the_stream() {
    let mut g = Generator::seeded("en_US", 5).unwrap();
    for _ in 0..50 {
        let saved = g.rng();
        let a = (g.random_digit(), g.random_digit_not_null(), g.random_digit_or_empty(), g.random_digit_not_null_or_empty());
        g.set_rng(saved);
        let b = (g.random_digit(), g.random_digit_not_null(), g.random_digit_or_empty(), g.random_digit_not_null_or_empty());
        assert_eq!(a, b);
    }
    let mut h = Generator::seeded("en_US", 5).unwrap();
    let mut seen_none = false;
    let mut seen_some = false;
    for _ in 0..200 {
        match h.random_digit_or_empty() {
            Some(d) => {
                assert!(d <= 9);
                seen_some = true;
            }
            None => seen_none = true,
        }
    }
    assert!(seen_none && seen_some);
}
