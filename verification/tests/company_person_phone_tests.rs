use rusty_faker_core::Generator;

#[test]
fn company_values() {
    let mut g = Generator::seeded("en_US", 8).unwrap();
    for _ in 0..200 {
        assert!(!g.company().contains("{{"));
        assert!(g.catch_phrase().split(' ').count() >= 3);
        assert!(!g.bs().is_empty());
    }
}

#[test]
fn names_are_rendered() {
    let mut g = Generator::seeded("en_US", 3).unwrap();
    for _ in 0..500 {
        let name = g.name();
        assert!(!name.contains("{{") && name.contains(' '), "{name}");
        assert!(!g.name_female().is_empty());
        assert!(!g.prefix().is_empty());
        assert!(!g.suffix().is_empty());
    }
}

#[test]
fn weighted_picks_track_weights() {
    // prefixes_male: Mr. 0.7, Dr. 0.3
    let mut g = Generator::seeded("en_US", 11).unwrap();
    let n = 20_000;
    let mr = (0..n).filter(|_| g.prefix_male() == "Mr.").count();
    let ratio = mr as f64 / n as f64;
    assert!((0.67..0.73).contains(&ratio), "{ratio}");
    g.set_use_weighting(false);
    let mr = (0..n).filter(|_| g.prefix_male() == "Mr.").count();
    let ratio = mr as f64 / n as f64;
    assert!((0.47..0.53).contains(&ratio), "{ratio}");
}

#[test]
fn phone_numbers_are_numerified() {
    let mut g = Generator::seeded("en_US", 2).unwrap();
    for _ in 0..200 {
        let number = g.phone_number();
        assert!(!number.contains(['#', '$']), "{number}");
        assert_eq!(g.msisdn().len(), 13);
        let basic = g.basic_phone_number();
        assert_eq!(basic.bytes().filter(u8::is_ascii_digit).count(), 10, "{basic}");
    }
}

#[test]
fn gendered_names_and_suffixes() {
    let mut g = Generator::seeded("en_US", 14).unwrap();
    for _ in 0..100 {
        assert!(!g.first_name_male().is_empty());
        assert!(!g.last_name_female().is_empty());
        assert!(!g.name_nonbinary().contains("{{"));
        assert!(!g.company_suffix().is_empty());
        assert!(g.country_calling_code().starts_with('+'));
    }
}
