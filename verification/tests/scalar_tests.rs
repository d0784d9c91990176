use ileap_data_model::{
    Decimal, ExemptedEmissionsPercent, Field, FloatBetween1and3, GlecDataQualityIndex, IataCode,
    Locode, NegativeDecimal, NonEmptyString, NonEmptyVec, Percent, PositiveDecimal, Reason,
    SpecVersionString, StrictlyPositiveDecimal, UicCode, Urn, Validate, ValidationError,
    VersionInteger, WrappedDecimal, ISO3166CC,
};

fn err(field: Field, reason: Reason) -> ValidationError {
    ValidationError { field, reason }
}

#[test]
fn country_code_must_be_two_capitals() {
    assert!(ISO3166CC::new("us".to_string()).is_err());
    assert_eq!(
        ISO3166CC::new("us".to_string()),
        Err(err(Field::Iso3166Cc, Reason::Malformed))
    );
    assert_eq!(
        ISO3166CC::new("US".to_string()),
        Ok(ISO3166CC("US".to_string()))
    );
    assert_eq!(
        ISO3166CC::new("USA".to_string()),
        Err(err(Field::Iso3166Cc, Reason::WrongLength))
    );
    assert_eq!(
        ISO3166CC::new("".to_string()),
        Err(err(Field::Iso3166Cc, Reason::WrongLength))
    );
    assert_eq!(
        ISO3166CC::new("U1".to_string()),
        Err(err(Field::Iso3166Cc, Reason::Malformed))
    );
    assert_eq!(
        ISO3166CC::new("ÄÖ".to_string()),
        Err(err(Field::Iso3166Cc, Reason::Malformed))
    );
}

#[test]
fn country_code_is_valid_tests_the_same_rule() {
    assert!(ISO3166CC("DE".to_string()).is_valid());
    assert!(!ISO3166CC("de".to_string()).is_valid());
    assert!(!ISO3166CC("D".to_string()).is_valid());
    assert!(!ISO3166CC("DEU".to_string()).is_valid());
}

#[test]
fn locode_must_have_five_characters() {
    assert_eq!(
        Locode::new("ABCD".to_string()),
        Err(err(Field::Locode, Reason::WrongLength))
    );
    assert_eq!(
        Locode::new("ABCDE".to_string()),
        Ok(Locode("ABCDE".to_string()))
    );
    assert_eq!(
        Locode::new("ABCDEF".to_string()),
        Err(err(Field::Locode, Reason::WrongLength))
    );
}

#[test]
fn iata_code_has_at_most_three_characters() {
    assert!(IataCode::new("".to_string()).is_ok());
    assert!(IataCode::new("FRA".to_string()).is_ok());
    assert_eq!(
        IataCode::new("FRAN".to_string()),
        Err(err(Field::IataCode, Reason::TooLong))
    );
}

#[test]
fn uic_code_must_have_two_characters() {
    assert!(UicCode::new("80".to_string()).is_ok());
    assert_eq!(
        UicCode::new("8".to_string()),
        Err(err(Field::UicCode, Reason::WrongLength))
    );
    assert_eq!(
        UicCode::new("801".to_string()),
        Err(err(Field::UicCode, Reason::WrongLength))
    );
}

#[test]
fn non_empty_string_rejects_the_empty_string() {
    assert_eq!(
        NonEmptyString::new(String::new()),
        Err(err(Field::NonEmptyString, Reason::Empty))
    );
    assert_eq!(
        NonEmptyString::new("x".to_string()),
        Ok(NonEmptyString("x".to_string()))
    );
    assert!(!NonEmptyString(String::new()).is_valid());
}

#[test]
fn urn_prefix_is_matched_in_either_case() {
    assert!(Urn::new("urn:test".to_string()).is_ok());
    assert!(Urn::new("URN:test".to_string()).is_ok());
    assert!(Urn::new("uRn:".to_string()).is_ok());
    assert_eq!(
        Urn::new("urn".to_string()),
        Err(err(Field::Urn, Reason::Malformed))
    );
    assert_eq!(
        Urn::new("url:test".to_string()),
        Err(err(Field::Urn, Reason::Malformed))
    );
    assert_eq!(
        Urn::new(" urn:test".to_string()),
        Err(err(Field::Urn, Reason::Malformed))
    );
}

#[test]
fn spec_version_follows_its_pattern() {
    for ok in ["2.2.0", "0.2.0", "10.20.30", "2.0.1-20230314"] {
        assert!(SpecVersionString::new(ok.to_string()).is_ok(), "{ok}");
    }
    for bad in [
        "",
        "2.2",
        "2.2.",
        ".2.0",
        "2..0",
        "2.2.0.1",
        "a.b.c",
        "2.2.0-2023031",
        "2.2.0-202303145",
        "2.2.0-2023031a",
        "2.2.0-",
        "2.2.0 ",
        "２.２.０",
    ] {
        assert_eq!(
            SpecVersionString::new(bad.to_string()),
            Err(err(Field::SpecVersionString, Reason::Malformed)),
            "{bad}"
        );
    }
}

#[test]
fn version_integer_is_zero_or_more() {
    assert_eq!(VersionInteger::new(0), Ok(VersionInteger(0)));
    assert_eq!(VersionInteger::new(i32::MAX), Ok(VersionInteger(i32::MAX)));
    assert_eq!(
        VersionInteger::new(-1),
        Err(err(Field::VersionInteger, Reason::OutOfRange))
    );
}

#[test]
fn non_empty_vec_rejects_the_empty_vector() {
    assert_eq!(
        NonEmptyVec::<u8>::new(vec![]),
        Err(err(Field::NonEmptyVec, Reason::Empty))
    );
    let v = NonEmptyVec::new(vec![1u8, 2]).unwrap();
    assert_eq!(v.0, vec![1, 2]);
    assert_eq!(v.len(), 2);
    assert!(v.is_valid());
    assert!(!NonEmptyVec::<u8>(vec![]).is_valid());
}

#[test]
fn data_quality_index_is_at_most_four() {
    assert_eq!(GlecDataQualityIndex::new(0), Ok(GlecDataQualityIndex(0)));
    assert_eq!(GlecDataQualityIndex::new(4), Ok(GlecDataQualityIndex(4)));
    assert_eq!(
        GlecDataQualityIndex::new(5),
        Err(err(Field::GlecDataQualityIndex, Reason::OutOfRange))
    );
}

#[test]
fn signed_decimals_have_their_signs() {
    let minus = Decimal::new(-1, 1);
    let zero = Decimal::new(0, 0);
    let plus = Decimal::new(1, 1);

    assert!(PositiveDecimal::new(plus).is_ok());
    assert!(PositiveDecimal::new(zero).is_ok());
    assert_eq!(
        PositiveDecimal::new(minus),
        Err(err(Field::PositiveDecimal, Reason::OutOfRange))
    );

    assert!(StrictlyPositiveDecimal::new(plus).is_ok());
    assert_eq!(
        StrictlyPositiveDecimal::new(zero),
        Err(err(Field::StrictlyPositiveDecimal, Reason::OutOfRange))
    );
    assert_eq!(
        StrictlyPositiveDecimal::new(minus),
        Err(err(Field::StrictlyPositiveDecimal, Reason::OutOfRange))
    );

    assert!(NegativeDecimal::new(minus).is_ok());
    assert!(NegativeDecimal::new(zero).is_ok());
    assert_eq!(
        NegativeDecimal::new(plus),
        Err(err(Field::NegativeDecimal, Reason::OutOfRange))
    );

    assert!(WrappedDecimal::new(minus).is_ok());
    assert_eq!(
        WrappedDecimal::new(Decimal::new(1, 29)),
        Err(err(Field::Decimal, Reason::OutOfRange))
    );
    assert_eq!(
        PositiveDecimal::new(Decimal {
            mantissa: 1 << 96,
            scale: 0
        }),
        Err(err(Field::PositiveDecimal, Reason::OutOfRange))
    );
}

#[test]
fn decimals_are_read_from_their_patterns() {
    assert_eq!(
        PositiveDecimal::parse("36.801"),
        Ok(PositiveDecimal(Decimal::new(36801, 3)))
    );
    assert_eq!(
        PositiveDecimal::parse("87"),
        Ok(PositiveDecimal(Decimal::new(87, 0)))
    );
    for bad in ["", "-1", "+1", "1.", ".5", "1e5", "1_000", " 1", "1,5", "١"] {
        assert_eq!(
            PositiveDecimal::parse(bad),
            Err(err(Field::PositiveDecimal, Reason::Malformed)),
            "{bad}"
        );
    }

    assert_eq!(
        WrappedDecimal::parse("-3.2801"),
        Ok(WrappedDecimal(Decimal::new(-32801, 4)))
    );
    assert_eq!(
        WrappedDecimal::parse("423"),
        Ok(WrappedDecimal(Decimal::new(423, 0)))
    );
    for bad in ["", "-", "--1", "- 1", "1-", "0x10"] {
        assert_eq!(
            WrappedDecimal::parse(bad),
            Err(err(Field::Decimal, Reason::Malformed)),
            "{bad}"
        );
    }

    assert_eq!(
        NegativeDecimal::parse("0"),
        Ok(NegativeDecimal(Decimal::new(0, 0)))
    );
    assert_eq!(
        NegativeDecimal::parse("-0.5"),
        Ok(NegativeDecimal(Decimal::new(-5, 1)))
    );
    for bad in ["0.0", "1", "00", "-", "-.5"] {
        assert_eq!(
            NegativeDecimal::parse(bad),
            Err(err(Field::NegativeDecimal, Reason::Malformed)),
            "{bad}"
        );
    }

    assert_eq!(
        StrictlyPositiveDecimal::parse("0.001"),
        Ok(StrictlyPositiveDecimal(Decimal::new(1, 3)))
    );
    assert_eq!(
        StrictlyPositiveDecimal::parse("100"),
        Ok(StrictlyPositiveDecimal(Decimal::new(100, 0)))
    );
    for bad in ["0", "0.0", "000", "-1", ""] {
        assert_eq!(
            StrictlyPositiveDecimal::parse(bad),
            Err(err(Field::StrictlyPositiveDecimal, Reason::Malformed)),
            "{bad}"
        );
    }
}

#[test]
fn decimal_that_does_not_fit_is_out_of_range() {
    let too_long = "9".repeat(40);
    assert_eq!(
        PositiveDecimal::parse(&too_long),
        Err(err(Field::PositiveDecimal, Reason::OutOfRange))
    );
    assert_eq!(
        WrappedDecimal::parse(&format!("-{too_long}")),
        Err(err(Field::Decimal, Reason::OutOfRange))
    );
}

#[test]
fn percent_is_from_zero_to_one_hundred() {
    for ok in [0.0f64, -0.0, 1e-300, 12.5, 100.0] {
        assert_eq!(
            Percent::from_bits(ok.to_bits()),
            Ok(Percent { bits: ok.to_bits() }),
            "{ok}"
        );
    }
    for bad in [
        -1e-300f64,
        -1.0,
        100.00000000000001,
        1e300,
        f64::INFINITY,
        f64::NEG_INFINITY,
        f64::NAN,
    ] {
        assert_eq!(
            Percent::from_bits(bad.to_bits()),
            Err(err(Field::Percent, Reason::OutOfRange)),
            "{bad}"
        );
    }
}

#[test]
fn every_whole_percentage_agrees_with_the_comparison_of_numbers() {
    for tenth in -50..1100 {
        let x = tenth as f64 / 10.0;
        assert_eq!(
            Percent { bits: x.to_bits() }.is_valid(),
            (0.0..=100.0).contains(&x),
            "{x}"
        );
        assert_eq!(
            ExemptedEmissionsPercent { bits: x.to_bits() }.is_valid(),
            (0.0..=5.0).contains(&x),
            "{x}"
        );
        let y = x as f32;
        assert_eq!(
            FloatBetween1and3 { bits: y.to_bits() }.is_valid(),
            (1.0..=3.0).contains(&y),
            "{y}"
        );
    }
}

#[test]
fn exempted_emissions_are_from_zero_to_five() {
    assert_eq!(ExemptedEmissionsPercent::zero().bits, 0.0f64.to_bits());
    assert!(ExemptedEmissionsPercent::from_bits(5.0f64.to_bits()).is_ok());
    assert_eq!(
        ExemptedEmissionsPercent::from_bits(5.000001f64.to_bits()),
        Err(err(Field::ExemptedEmissionsPercent, Reason::OutOfRange))
    );
    assert_eq!(
        ExemptedEmissionsPercent::from_bits((-0.1f64).to_bits()),
        Err(err(Field::ExemptedEmissionsPercent, Reason::OutOfRange))
    );
}

#[test]
fn rating_is_from_one_to_three() {
    for ok in [1.0f32, 1.5, 2.0, 3.0] {
        assert!(FloatBetween1and3::from_bits(ok.to_bits()).is_ok(), "{ok}");
    }
    for bad in [0.0f32, 0.99999, 3.0000002, -1.0, -2.0, f32::NAN, f32::INFINITY] {
        assert_eq!(
            FloatBetween1and3::from_bits(bad.to_bits()),
            Err(err(Field::FloatBetween1And3, Reason::OutOfRange)),
            "{bad}"
        );
    }
}

#[test]
fn validation_reports_the_violation_of_the_value() {
    assert_eq!(Locode("ABCDE".to_string()).validate(), Ok(()));
    assert_eq!(
        Locode("ABCD".to_string()).validate(),
        Err(err(Field::Locode, Reason::WrongLength))
    );
    assert_eq!(
        err(Field::Locode, Reason::WrongLength).message(),
        "Locode has the wrong length"
    );
}
