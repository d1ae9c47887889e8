use rusty_faker_core::{Error, Generator};

#[test]
fn address_parts() {
    let mut g = Generator::seeded("en_US", 5).unwrap();
    for _ in 0..500 {
        let address = g.address();
        assert!(address.contains('\n') && !address.contains("{{"), "{address}");
        let zip = g.postcode();
        assert_eq!(zip.len(), 5);
        assert!(zip.bytes().all(|b| b.is_ascii_digit()));
        let plus4 = g.zipcode_plus4();
        assert_eq!(plus4.len(), 10, "{plus4}");
        assert_eq!(g.state_abbr(false, false).len(), 2);
    }
    assert_eq!(g.current_country_code().unwrap(), "US");
    assert_eq!(g.current_country().unwrap(), "United States");
}

#[test]
fn postcode_in_state_uses_ranges() {
    let mut g = Generator::seeded("en_US", 5).unwrap();
    for _ in 0..200 {
        let zip: u32 = g.postcode_in_state(Some("CT")).unwrap().parse().unwrap();
        assert!((6001..=6389).contains(&zip));
    }
    assert_eq!(g.postcode_in_state(Some("PR")).unwrap().len(), 5);
    assert_eq!(g.postcode_in_state(Some("XX")), Err(Error::StateNotFound));
    assert!(g.country_code("alpha-4").is_err());
    assert_eq!(g.country_code("alpha-3").unwrap().len(), 3);
}

#[test]
fn address_pieces_are_filled() {
    let mut g = Generator::seeded("en_US", 12).unwrap();
    for _ in 0..100 {
        assert!(!g.city().contains("{{"));
        assert!(!g.street_address().contains("{{"));
        assert!(g.building_number().bytes().all(|b| b.is_ascii_digit()));
        assert!(!g.state().unwrap().is_empty());
        assert_eq!(g.country_code("alpha-2").unwrap().len(), 2);
        let apo = g.military_apo();
        assert!(apo.starts_with("PSC "), "{apo}");
        assert!(!g.secondary_address().contains('#'));
    }
    assert_eq!(
        g.country_code("alpha-4").unwrap_err().message(),
        "`representation` must be one of `alpha-2` or `alpha-3`."
    );
}
