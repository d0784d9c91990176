use ileap_data_model::decimal::sum_all;
use ileap_data_model::{Decimal, Field, Reason, ValidationError};

#[test]
fn decimal_sum_keeps_the_larger_scale() {
    let a = Decimal::new(11844, 2);
    let b = Decimal::new(1320, 0);
    assert_eq!(a.checked_add(&b), Some(Decimal::new(143844, 2)));
}

#[test]
fn decimal_sum_reports_overflow() {
    let max = Decimal {
        mantissa: 79_228_162_514_264_337_593_543_950_335,
        scale: 0,
    };
    assert_eq!(max.checked_add(&Decimal::new(1, 0)), None);
    assert_eq!(max.checked_add(&Decimal::new(-1, 0)).map(|d| d.scale), Some(0));
}

#[test]
fn malformed_decimals_have_no_sum() {
    let bad_scale = Decimal::new(1, 29);
    let bad_mantissa = Decimal {
        mantissa: 1 << 96,
        scale: 0,
    };
    let one = Decimal::new(1, 0);
    assert!(!bad_scale.is_valid());
    assert!(!bad_mantissa.is_valid());
    assert_eq!(bad_scale.checked_add(&one), None);
    assert_eq!(one.checked_add(&bad_mantissa), None);
    assert_eq!(bad_scale.checked_mul(&one), None);
    assert_eq!(one.checked_div(&bad_scale), None);
    assert_eq!(bad_mantissa.round_dp(2), None);
}

#[test]
fn decimal_product_quotient_and_rounding() {
    let a = Decimal::new(15, 1);
    let b = Decimal::new(25, 1);
    assert_eq!(a.checked_mul(&b), Some(Decimal::new(375, 2)));
    assert_eq!(
        Decimal::new(1, 0).checked_div(&Decimal::new(4, 0)),
        Some(Decimal::new(25, 2))
    );
    assert_eq!(Decimal::new(1, 0).checked_div(&Decimal::new(0, 0)), None);
    assert_eq!(Decimal::new(375, 2).round_dp(1), Some(Decimal::new(38, 1)));
    assert_eq!(Decimal::new(365, 2).round_dp(1), Some(Decimal::new(36, 1)));
    assert_eq!(Decimal::new(5, 0).round_dp(2), Some(Decimal::new(5, 0)));
}

#[test]
fn decimal_text_round_trip() {
    for (mantissa, scale, text) in [
        (0i64, 0u32, "0"),
        (150, 2, "1.50"),
        (-32801, 4, "-3.2801"),
        (33840, 0, "33840"),
        (7, 3, "0.007"),
    ] {
        let d = Decimal::new(mantissa, scale);
        assert_eq!(d.to_text(), text);
        assert_eq!(Decimal::parse(text), Some(d));
    }
    assert_eq!(Decimal::parse("not a number"), None);
    assert_eq!(Decimal::parse(""), None);
}

#[test]
fn decimal_from_parts_checks_the_range() {
    assert_eq!(Decimal::from_parts(5, 28), Ok(Decimal { mantissa: 5, scale: 28 }));
    assert_eq!(
        Decimal::from_parts(5, 29),
        Err(ValidationError {
            field: Field::Decimal,
            reason: Reason::OutOfRange
        })
    );
    assert_eq!(
        Decimal::from_parts(-(1 << 96), 0),
        Err(ValidationError {
            field: Field::Decimal,
            reason: Reason::OutOfRange
        })
    );
    assert!(Decimal::from_parts(-(1 << 96) + 1, 0).is_ok());
    assert_eq!(Decimal::from_i64(-7), Decimal { mantissa: -7, scale: 0 });
    assert!(Decimal::new(0, 5).is_zero());
    assert!(!Decimal::new(1, 5).is_zero());
}

#[test]
fn decimal_compared_with_one() {
    assert!(Decimal::new(1, 0).is_at_most_one());
    assert!(Decimal::new(100, 2).is_at_most_one());
    assert!(Decimal::new(99, 2).is_at_most_one());
    assert!(Decimal::new(-5, 0).is_at_most_one());
    assert!(!Decimal::new(101, 2).is_at_most_one());
    assert!(!Decimal::new(2, 0).is_at_most_one());
    assert!(Decimal {
        mantissa: 10_000_000_000_000_000_000_000_000_000,
        scale: 28
    }
    .is_at_most_one());
    assert!(!Decimal {
        mantissa: 10_000_000_000_000_000_000_000_000_001,
        scale: 28
    }
    .is_at_most_one());
}

#[test]
fn sum_of_a_list_starts_at_zero() {
    assert_eq!(sum_all(&vec![]), Some(Decimal::new(0, 0)));
    assert_eq!(
        sum_all(&vec![
            Decimal::new(11844, 2),
            Decimal::new(1320, 0),
            Decimal::new(169262, 2)
        ]),
        Some(Decimal::new(313106, 2))
    );
    assert_eq!(
        sum_all(&vec![Decimal::new(1, 0), Decimal::new(1, 40)]),
        None
    );
}
