use rusty_faker_core::en_us::{en_us, running_totals, templates};
use rusty_faker_core::template::{match_token, tokenize, Segment};
use rusty_faker_core::{Error, Formatter, Generator};

#[test]
fn names_round_trip() {
    for formatter in Formatter::all() {
        assert_eq!(Formatter::from_name(formatter.name()), Some(formatter));
    }
}

#[test]
fn parse_replaces_tokens_and_keeps_other_text() {
    let mut fake = Generator::seeded("en_US", 7).unwrap();
    let out = fake.parse("Hi {{ first_name }}! {not} {{nope").unwrap();
    assert!(out.starts_with("Hi ") && out.ends_with("! {not} {{nope"), "{out}");
    assert!(!out.contains("first_name"));
    assert!(matches!(fake.parse("{{bogus}}"), Err(Error::UnknownFormatter(_))));
}

#[test]
fn unknown_names_are_none() {
    assert_eq!(Formatter::from_name("no_such_formatter"), None);
    assert_eq!(Formatter::from_name(""), None);
    assert_eq!(Formatter::all().len(), 29);
}

#[test]
fn tokens_match_like_the_regex() {
    let v: Vec<char> = "{{ city }} rest".chars().collect();
    // `{{` at 0: the name runs over 3..7 and the match ends after `}}` at 10.
    assert_eq!(match_token(&v, 2), Some((3, 7, 10)));
    let w: Vec<char> = "{{ }}".chars().collect();
    assert_eq!(match_token(&w, 2), None);
}

#[test]
fn tokenize_splits_literals_and_tokens() {
    let t = tokenize("{{first_name}} {{last_name}}").unwrap();
    assert_eq!(t.len(), 3);
    assert!(matches!(t[0], Segment::Token(Formatter::FirstName)));
    assert!(matches!(&t[1], Segment::Literal(s) if s == " "));
    assert!(matches!(t[2], Segment::Token(Formatter::LastName)));
    assert!(tokenize("{{bogus}}").is_err());
}

#[test]
fn running_totals_saturate() {
    assert_eq!(running_totals(&[970, 15, 20, 5]), vec![970, 985, 1005, 1010]);
    assert_eq!(running_totals(&[u64::MAX - 1, 5, 0]), vec![u64::MAX - 1, u64::MAX, u64::MAX]);
    assert!(running_totals(&[]).is_empty());
}

#[test]
fn template_tables_tokenize_or_refuse() {
    let t = templates(&["{{city}}, {{postcode}}", "x"], Some(&[2, 3])).unwrap();
    assert_eq!(t.items.len(), 2);
    assert_eq!(t.items[0].len(), 4);
    assert!(matches!(t.items[0][0], Segment::Token(Formatter::City)));
    assert_eq!(t.cum_weights, Some(vec![2, 5]));
    let u = templates(&["{{last_name}}"], None).unwrap();
    assert!(u.cum_weights.is_none());
    assert!(templates(&["{{city}}", "{{no_such_formatter}}"], None).is_none());
}

#[test]
fn en_us_templates_all_tokenize() {
    let l = en_us().unwrap();
    assert_eq!(l.code, "en_US");
}
