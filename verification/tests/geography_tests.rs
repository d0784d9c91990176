use ileap_data_model::{
    Decimal, DistanceKeys, Field, GeographicKeys, GeographicScope, GlecDistance, NonEmptyString,
    Reason, UNRegionOrSubregion, Validate, ValidationError, WrappedDecimal, ISO3166CC,
};

fn keys(region: Option<&str>, country: Option<&str>, subdivision: Option<&str>) -> GeographicKeys {
    GeographicKeys {
        geography_region_or_subregion: region.map(|s| s.to_string()),
        geography_country: country.map(|s| s.to_string()),
        geography_country_subdivision: subdivision.map(|s| s.to_string()),
    }
}

#[test]
fn no_geographic_key_is_the_global_scope() {
    assert_eq!(
        GeographicScope::decode(keys(None, None, None)),
        Ok(GeographicScope::Global)
    );
    assert_eq!(GeographicScope::Global.encode(), keys(None, None, None));
}

#[test]
fn each_scope_is_read_back_from_its_keys() {
    let scopes = [
        GeographicScope::Global,
        GeographicScope::Regional(UNRegionOrSubregion::Africa),
        GeographicScope::Regional(UNRegionOrSubregion::LatinAmericaAndTheCaribbean),
        GeographicScope::Regional(UNRegionOrSubregion::WesternEurope),
        GeographicScope::Country(ISO3166CC("FR".to_string())),
        GeographicScope::Subdivision(NonEmptyString("FR-89".to_string())),
    ];
    for scope in scopes {
        assert_eq!(GeographicScope::decode(scope.encode()), Ok(scope));
    }
}

#[test]
fn scope_keys_carry_the_names_on_the_wire() {
    assert_eq!(
        GeographicScope::Regional(UNRegionOrSubregion::SouthEasternAsia).encode(),
        keys(Some("South-eastern Asia"), None, None)
    );
    assert_eq!(
        GeographicScope::Country(ISO3166CC("US".to_string())).encode(),
        keys(None, Some("US"), None)
    );
    assert_eq!(
        GeographicScope::Subdivision(NonEmptyString("US-NY".to_string())).encode(),
        keys(None, None, Some("US-NY"))
    );
}

#[test]
fn two_or_more_geographic_keys_are_rejected() {
    let conflict = Err(ValidationError {
        field: Field::GeographicScope,
        reason: Reason::Conflict,
    });
    assert_eq!(
        GeographicScope::decode(keys(Some("Africa"), Some("FR"), None)),
        conflict
    );
    assert_eq!(
        GeographicScope::decode(keys(Some("Africa"), None, Some("FR-89"))),
        conflict
    );
    assert_eq!(
        GeographicScope::decode(keys(None, Some("FR"), Some("FR-89"))),
        conflict
    );
    assert_eq!(
        GeographicScope::decode(keys(Some("Africa"), Some("FR"), Some("FR-89"))),
        conflict
    );
    assert_eq!(
        GeographicScope::decode(keys(Some("nowhere"), Some("fr"), None)),
        conflict
    );
}

#[test]
fn a_single_geographic_key_must_hold_a_value_of_its_type() {
    assert_eq!(
        GeographicScope::decode(keys(Some("Atlantis"), None, None)),
        Err(ValidationError {
            field: Field::GeographicScope,
            reason: Reason::Malformed
        })
    );
    assert_eq!(
        GeographicScope::decode(keys(None, Some("fr"), None)),
        Err(ValidationError {
            field: Field::Iso3166Cc,
            reason: Reason::Malformed
        })
    );
    assert_eq!(
        GeographicScope::decode(keys(None, Some("FRA"), None)),
        Err(ValidationError {
            field: Field::Iso3166Cc,
            reason: Reason::WrongLength
        })
    );
    assert_eq!(
        GeographicScope::decode(keys(None, None, Some(""))),
        Err(ValidationError {
            field: Field::NonEmptyString,
            reason: Reason::Empty
        })
    );
}

#[test]
fn geography_country_is_the_country_of_a_country_scope() {
    let fr = ISO3166CC("FR".to_string());
    assert_eq!(
        GeographicScope::Country(fr.clone()).geography_country(),
        Some(&fr)
    );
    assert_eq!(GeographicScope::Global.geography_country(), None);
    assert_eq!(
        GeographicScope::Regional(UNRegionOrSubregion::Asia).geography_country(),
        None
    );
    assert_eq!(
        GeographicScope::Subdivision(NonEmptyString("FR-89".to_string())).geography_country(),
        None
    );
}

#[test]
fn scope_validation_tests_its_content() {
    assert_eq!(GeographicScope::Global.validate(), Ok(()));
    assert_eq!(
        GeographicScope::Country(ISO3166CC("fr".to_string())).validate(),
        Err(ValidationError {
            field: Field::Iso3166Cc,
            reason: Reason::Malformed
        })
    );
    assert_eq!(
        GeographicScope::Subdivision(NonEmptyString(String::new())).validate(),
        Err(ValidationError {
            field: Field::NonEmptyString,
            reason: Reason::Empty
        })
    );
}

fn wd(mantissa: i64, scale: u32) -> WrappedDecimal {
    WrappedDecimal(Decimal::new(mantissa, scale))
}

#[test]
fn test_glecdistance_construction() {
    assert_eq!(
        GlecDistance::new_actual(WrappedDecimal(Decimal::new(100, 0))),
        GlecDistance::Actual {
            actual: WrappedDecimal(Decimal::new(100, 0)),
            gcd: None,
            sfd: None
        }
    );
    assert_eq!(
        GlecDistance::new_actual(WrappedDecimal(Decimal::new(100, 0))).get_distance(),
        Decimal::new(100, 0)
    );
    assert_eq!(
        GlecDistance::new_gcd(WrappedDecimal(Decimal::new(200, 0))),
        GlecDistance::Gcd {
            actual: None,
            gcd: WrappedDecimal(Decimal::new(200, 0)),
            sfd: None
        }
    );
    assert_eq!(
        GlecDistance::new_gcd(WrappedDecimal(Decimal::new(200, 0))).get_distance(),
        Decimal::new(200, 0)
    );
    assert_eq!(
        GlecDistance::new_sfd(WrappedDecimal(Decimal::new(300, 0))),
        GlecDistance::Sfd {
            actual: None,
            gcd: None,
            sfd: WrappedDecimal(Decimal::new(300, 0))
        }
    );
    assert_eq!(
        GlecDistance::new_sfd(WrappedDecimal(Decimal::new(300, 0))).get_distance(),
        Decimal::new(300, 0)
    );
}

#[test]
fn the_first_distance_key_present_is_the_distance() {
    let all = DistanceKeys {
        actual: Some(wd(423, 0)),
        gcd: Some(wd(400, 0)),
        sfd: Some(wd(410, 0)),
    };
    let d = GlecDistance::decode(all).unwrap();
    assert_eq!(d.get_distance(), Decimal::new(423, 0));
    assert_eq!(d.encode(), all);

    let two = DistanceKeys {
        actual: None,
        gcd: Some(wd(400, 0)),
        sfd: Some(wd(410, 0)),
    };
    let d = GlecDistance::decode(two).unwrap();
    assert_eq!(
        d,
        GlecDistance::Gcd {
            actual: None,
            gcd: wd(400, 0),
            sfd: Some(wd(410, 0))
        }
    );
    assert_eq!(d.get_distance(), Decimal::new(400, 0));
    assert_eq!(d.encode(), two);

    let one = DistanceKeys {
        actual: None,
        gcd: None,
        sfd: Some(wd(410, 0)),
    };
    assert_eq!(
        GlecDistance::decode(one),
        Ok(GlecDistance::new_sfd(wd(410, 0)))
    );
}

#[test]
fn no_distance_key_is_an_error() {
    assert_eq!(
        GlecDistance::decode(DistanceKeys {
            actual: None,
            gcd: None,
            sfd: None
        }),
        Err(ValidationError {
            field: Field::GlecDistance,
            reason: Reason::Missing
        })
    );
}

#[test]
fn a_distance_with_a_key_before_its_basis_is_not_canonical() {
    let odd = GlecDistance::Gcd {
        actual: Some(wd(1, 0)),
        gcd: wd(2, 0),
        sfd: None,
    };
    assert_eq!(
        odd.validate(),
        Err(ValidationError {
            field: Field::GlecDistance,
            reason: Reason::Conflict
        })
    );
    assert_eq!(
        GlecDistance::decode(odd.encode()),
        Ok(GlecDistance::Actual {
            actual: wd(1, 0),
            gcd: Some(wd(2, 0)),
            sfd: None
        })
    );
    assert_eq!(GlecDistance::new_gcd(wd(2, 0)).validate(), Ok(()));
    assert_eq!(
        GlecDistance::new_actual(wd(2, 40)).validate(),
        Err(ValidationError {
            field: Field::Decimal,
            reason: Reason::OutOfRange
        })
    );
}
