use rusty_faker_core::{find_locale, locale_codes, Error, Generator};

#[test]
fn unknown_locale_is_an_error() {
    assert_eq!(Generator::new("xx_XX").unwrap_err(), Error::UnknownLocale("xx_XX".into()));
}

#[test]
fn same_seed_same_sequence() {
    let mut a = Generator::seeded("en_US", 99).unwrap();
    let mut b = Generator::seeded("en_US", 99).unwrap();
    let run = |g: &mut Generator| {
        (0..50)
            .map(|_| format!("{}|{}|{}", g.name(), g.address(), g.email(true, None)))
            .collect::<Vec<_>>()
    };
    assert_eq!(run(&mut a), run(&mut b));
    let mut c = Generator::seeded("en_US", 100).unwrap();
    assert_ne!(run(&mut a), run(&mut c));
}

#[test]
fn reseeding_restarts_the_stream() {
    let mut a = Generator::seeded("en_US", 5).unwrap();
    let first: Vec<String> = (0..10).map(|_| a.name()).collect();
    a.seed(5);
    let again: Vec<String> = (0..10).map(|_| a.name()).collect();
    assert_eq!(first, again);
}

#[test]
fn clones_draw_the_same_values() {
    let mut a = Generator::seeded("en_US", 21).unwrap();
    let mut b = a.clone();
    assert_eq!(a.city(), b.city());
    assert_eq!(a.random_int(0, 1000, 1).unwrap(), b.random_int(0, 1000, 1).unwrap());
}

#[test]
fn locales_compiled_in() {
    assert_eq!(locale_codes(), vec!["en_US"]);
    assert_eq!(find_locale("en_US").unwrap().code, "en_US");
    assert!(find_locale("de_DE").is_none());
    let g = Generator::seeded("en_US", 1).unwrap();
    assert!(g.use_weighting());
    assert_eq!(g.locale_data().code, "en_US");
}

#[test]
fn error_messages_match_faker() {
    assert_eq!(Error::UnknownLocale("xx".into()).message(), "locale `xx` is not available");
    assert_eq!(Error::UnknownFormatter("nope".into()).message(), "Unknown formatter \"nope\"");
    assert_eq!(Error::EmptySequence.message(), "Cannot choose from an empty sequence");
    assert_eq!(Error::StateNotFound.message(), "State Abbreviation not found in list");
    assert_eq!(Error::Overflow("too big".into()).message(), "too big");
}

#[test]
fn handing_back_the_stream_replays_it() {
    let mut g = Generator::seeded("en_US", 77).unwrap();
    let saved = g.rng();
    let first = g.name();
    g.set_rng(saved);
    assert_eq!(g.name(), first);
}

#[test]
fn same_seed_same_lorem_company_and_network_values() {
    let mut a = Generator::seeded("en_US", 31).unwrap();
    let mut b = Generator::seeded("en_US", 31).unwrap();
    for _ in 0..5 {
        assert_eq!(a.text(200, None).unwrap(), b.text(200, None).unwrap());
        assert_eq!(a.words(4, None, None, true).unwrap(), b.words(4, None, None, true).unwrap());
        assert_eq!(a.catch_phrase(), b.catch_phrase());
        assert_eq!(a.phone_number(), b.phone_number());
        assert_eq!(a.uri(None, None), b.uri(None, None));
        assert_eq!(a.hostname(2), b.hostname(2));
        assert_eq!(a.mac_address(false), b.mac_address(false));
        assert_eq!(a.random_number(None, false).unwrap(), b.random_number(None, false).unwrap());
    }
}

#[test]
fn parse_reports_the_first_unknown_formatter() {
    let mut g = Generator::seeded("en_US", 2).unwrap();
    assert_eq!(g.parse("{{first_name}} {{nope}} {{also_nope}}"), Err(Error::UnknownFormatter("nope".into())));
}
