use ileap_data_model::{PfId, Timestamp, UuidError};

#[test]
fn version_four_uuid_is_a_footprint_identifier() {
    let id = PfId::parse("52B87062-1506-455C-B521-5212212959A8").unwrap();
    assert_eq!(id, PfId(0x52B87062_1506_455C_B521_5212212959A8));
    assert_eq!(id.version(), 4);
    assert!(id.is_valid());
    assert_eq!(id.to_text(), "52b87062-1506-455c-b521-5212212959a8");
    assert_eq!(PfId::parse(&id.to_text()).unwrap(), id);
}

#[test]
fn uuid_of_another_version_is_a_version_error() {
    let r = PfId::parse("02f09a3f-1624-3b1d-8409-44eff7708208");
    assert!(matches!(r, Err(UuidError::VersionError)));
    let r = PfId::parse("00000000-0000-0000-0000-000000000000");
    assert!(matches!(r, Err(UuidError::VersionError)));
}

#[test]
fn text_that_is_no_uuid_is_a_parse_error() {
    for bad in ["", "abc", "52B87062-1506-455C-B521-5212212959A", "zzzzzzzz-zzzz-4zzz-zzzz-zzzzzzzzzzzz"] {
        let r = PfId::parse(bad);
        assert!(matches!(r, Err(UuidError::ParseError(_))), "{bad}");
    }
}

#[test]
fn the_two_errors_differ() {
    let version = PfId::parse("02f09a3f-1624-3b1d-8409-44eff7708208").unwrap_err();
    let parse = PfId::parse("not a uuid").unwrap_err();
    assert!(matches!(version, UuidError::VersionError));
    assert!(!matches!(parse, UuidError::VersionError));
}

#[test]
fn parsed_result_is_decided_by_its_version() {
    let v4 = uuid::Uuid::parse_str("8C5D709E-F3A0-4B90-889D-91BF2A68FA19").map(|u| u.as_u128());
    assert_eq!(
        PfId::from_parsed(v4).unwrap(),
        PfId(0x8C5D709E_F3A0_4B90_889D_91BF2A68FA19)
    );
    let v1 = uuid::Uuid::parse_str("c232ab00-9414-11ec-b3c8-9f6bdeced846").map(|u| u.as_u128());
    assert!(matches!(PfId::from_parsed(v1), Err(UuidError::VersionError)));
    let none = uuid::Uuid::parse_str("nothing").map(|u| u.as_u128());
    let expected = none.clone().unwrap_err();
    match PfId::from_parsed(none) {
        Err(UuidError::ParseError(e)) => assert_eq!(e, expected),
        other => panic!("unexpected {other:?}"),
    }
}

#[test]
fn fresh_identifiers_have_version_four() {
    for _ in 0..32 {
        let id = PfId::new_v4();
        assert_eq!(id.version(), 4);
        assert_eq!(uuid::Uuid::from_u128(id.0).get_version_num(), 4);
    }
}

#[test]
fn version_is_the_high_nibble_of_the_seventh_byte() {
    for v in 0u128..16 {
        let bits = (v << 76) | 0xffff_ffff_ffff_0fff_ffff_ffff_ffff_ffff;
        assert_eq!(PfId(bits).version() as u128, v);
        assert_eq!(uuid::Uuid::from_u128(bits).get_version_num() as u128, v);
    }
}

#[test]
fn timestamps_are_ordered_by_seconds_then_nanoseconds() {
    let a = Timestamp::new(10, 5);
    assert!(a.is_before(&Timestamp::new(11, 0)));
    assert!(a.is_before(&Timestamp::new(10, 6)));
    assert!(!a.is_before(&a));
    assert!(!a.is_before(&Timestamp::new(10, 4)));
    assert!(!a.is_before(&Timestamp::new(9, 999_999_999)));
    assert!(Timestamp::new(-1, 0).is_before(&Timestamp::new(0, 0)));
}

#[test]
fn shifting_a_timestamp_by_days() {
    let a = Timestamp::new(1_654_018_260, 7);
    assert_eq!(a.plus_days(364), Some(Timestamp::new(1_685_467_860, 7)));
    assert_eq!(a.plus_days(0), Some(a));
    assert_eq!(a.plus_days(-1), Some(Timestamp::new(1_653_931_860, 7)));
    assert_eq!(Timestamp::new(i64::MAX, 0).plus_days(1), None);
    assert_eq!(Timestamp::new(i64::MIN, 0).plus_days(-1), None);
    assert_eq!(Timestamp::new(0, 0).plus_days(i64::MAX), None);
    assert_eq!(
        Timestamp::new(i64::MAX - 86_400, 0).plus_days(1),
        Some(Timestamp::new(i64::MAX, 0))
    );
    assert_eq!(
        Timestamp::new(5000, 0).plus_days(i64::MIN / 86_400),
        Some(Timestamp::new(5000 + (i64::MIN / 86_400) * 86_400, 0))
    );
    assert_eq!(a.plus_seconds(3600), Some(Timestamp::new(1_654_021_860, 7)));
    assert_eq!(Timestamp::new(i64::MAX, 0).plus_seconds(1), None);
}

#[test]
fn the_clock_reads_a_time_after_2020() {
    let now = Timestamp::now();
    assert!(Timestamp::new(1_577_836_800, 0).is_before(&now));
    let chrono_now = chrono::Utc::now().timestamp();
    assert!((chrono_now - now.secs).abs() <= 5);
}

#[test]
fn an_identifier_is_written_in_five_groups_of_lower_case_digits() {
    assert_eq!(
        PfId(0x0123_4567_89ab_4def_8123_4567_89ab_cdef).to_text(),
        "01234567-89ab-4def-8123-456789abcdef"
    );
    assert_eq!(PfId(0).to_text(), "00000000-0000-0000-0000-000000000000");
    assert_eq!(
        PfId(u128::MAX).to_text(),
        "ffffffff-ffff-ffff-ffff-ffffffffffff"
    );
    assert_eq!(PfId(10 << 124).to_text().chars().next(), Some('a'));
}
