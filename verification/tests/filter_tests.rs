use ileap_data_model::filter::{
    filtered_data, parse_filter, split, split_words, trim, Comparison, Condition, FilterError,
    Property,
};
use ileap_data_model::{
    to_pcf, Decimal, EnergyCarrier, EnergyCarrierType, GeographicScope, NonEmptyString,
    NonEmptyVec, ProductFootprint, Timestamp, Toc, TransportActivityUnit, TransportMode, Urn,
    WrappedDecimal, ISO3166CC,
};

fn chars(s: &str) -> Vec<char> {
    s.chars().collect()
}

fn text(v: &[char]) -> String {
    v.iter().collect()
}

fn texts(v: &[Vec<char>]) -> Vec<String> {
    v.iter().map(|p| text(p)).collect()
}

fn footprint(
    toc_id: &str,
    country: Option<&str>,
    updated: Option<&str>,
    product_id: &str,
) -> ProductFootprint<Toc> {
    let toc = Toc {
        toc_id: toc_id.to_string(),
        certifications: None,
        description: None,
        mode: TransportMode::Road,
        load_factor: None,
        empty_distance_factor: None,
        temperature_control: None,
        truck_loading_sequence: None,
        air_shipping_option: None,
        flight_length: None,
        energy_carriers: NonEmptyVec::new(vec![EnergyCarrier {
            energy_carrier: EnergyCarrierType::Diesel,
            feedstocks: None,
            energy_consumption: None,
            energy_consumption_unit: None,
            emission_factor_wtw: WrappedDecimal(Decimal::new(1, 0)),
            emission_factor_ttw: WrappedDecimal(Decimal::new(1, 0)),
            relative_share: WrappedDecimal(Decimal::new(1, 0)),
        }])
        .unwrap(),
        co2e_intensity_wtw: WrappedDecimal(Decimal::new(1, 0)),
        co2e_intensity_ttw: WrappedDecimal(Decimal::new(1, 0)),
        transport_activity_unit: TransportActivityUnit::Tkm,
    };
    let mut pf = to_pcf(toc, "test", "urn:test", None).unwrap();
    pf.created = Timestamp::parse("2022-05-31T17:31:00Z").unwrap();
    pf.updated = updated.map(|u| Timestamp::parse(u).unwrap());
    pf.pcf.geographic_scope =
        country.map(|c| GeographicScope::Country(ISO3166CC(c.to_string())));
    pf.pcf.reference_period_start = Timestamp::parse("2021-01-01T00:00:00Z").unwrap();
    pf.pcf.reference_period_end = Timestamp::parse("2022-01-01T00:00:00Z").unwrap();
    pf.product_ids.0.push(Urn(product_id.to_string()));
    pf.product_category_cpc = NonEmptyString("3342".to_string());
    pf
}

fn data() -> Vec<ProductFootprint<Toc>> {
    vec![
        footprint(
            "a",
            Some("FR"),
            Some("2023-06-27T12:12:03Z"),
            "urn:gtin:4712345060507",
        ),
        footprint("b", Some("DE"), None, "urn:gtin:1"),
        footprint("c", None, Some("2023-07-01T00:00:00Z"), "urn:gtin:2"),
    ]
}

fn ids(r: Result<Vec<ProductFootprint<Toc>>, FilterError>) -> Vec<String> {
    r.unwrap()
        .iter()
        .map(|pf| pf.extensions.as_ref().unwrap()[0].data.toc_id.clone())
        .collect()
}

#[test]
fn no_filter_keeps_everything() {
    assert_eq!(filtered_data(data(), None).unwrap().len(), 3);
}

#[test]
fn filter_on_the_country() {
    assert_eq!(
        ids(filtered_data(data(), Some("pcf/geographyCountry eq 'FR'"))),
        vec!["a"]
    );
    assert_eq!(
        ids(filtered_data(data(), Some("pcf/geographyCountry eq 'US'"))),
        Vec::<String>::new()
    );
}

#[test]
fn filter_on_a_point_in_time() {
    assert_eq!(
        ids(filtered_data(
            data(),
            Some("updated lt '2023-06-27T13:00:00.000Z'")
        )),
        vec!["a"]
    );
    assert_eq!(
        ids(filtered_data(
            data(),
            Some("updated ge '2023-06-27T12:12:03Z'")
        )),
        vec!["a", "c"]
    );
    assert_eq!(
        ids(filtered_data(
            data(),
            Some("updated gt '2023-06-27T12:12:03Z'")
        )),
        vec!["c"]
    );
    assert_eq!(
        ids(filtered_data(
            data(),
            Some("updated le '2023-06-27T12:12:03Z'")
        )),
        vec!["a"]
    );
    assert_eq!(
        ids(filtered_data(
            data(),
            Some("created lt '2023-01-01T00:00:00Z'")
        )),
        vec!["a", "b", "c"]
    );
    assert_eq!(
        ids(filtered_data(
            data(),
            Some("pcf/referencePeriodEnd gt '2022-01-01T00:00:00Z'")
        )),
        Vec::<String>::new()
    );
}

#[test]
fn filter_with_two_conditions_in_parentheses() {
    assert_eq!(
        ids(filtered_data(
            data(),
            Some("(pcf/geographyCountry eq 'FR') and (updated lt '2023-06-27T12:12:04.000Z')")
        )),
        vec!["a"]
    );
    assert_eq!(
        ids(filtered_data(
            data(),
            Some("(pcf/geographyCountry eq 'FR') and (updated lt '2023-06-27T12:12:03.000Z')")
        )),
        Vec::<String>::new()
    );
}

#[test]
fn filter_on_an_identifier() {
    assert_eq!(
        ids(filtered_data(
            data(),
            Some("productIds/any(productId:(productId eq 'urn:gtin:4712345060507'))")
        )),
        vec!["a"]
    );
    assert_eq!(
        ids(filtered_data(
            data(),
            Some("productIds/any(productId:(productId eq 'urn:gtin:12345'))")
        )),
        Vec::<String>::new()
    );
    assert_eq!(
        ids(filtered_data(
            data(),
            Some("companyIds/any(companyId:(companyId eq 'urn:test'))")
        )),
        vec!["a", "b", "c"]
    );
}

#[test]
fn filter_on_a_text_property() {
    assert_eq!(
        ids(filtered_data(data(), Some("productCategoryCpc eq '3342'"))),
        vec!["a", "b", "c"]
    );
    assert_eq!(
        filtered_data(data(), Some("created eq '2022-05-31 17:31:00 UTC'")),
        Err(malformed(&["created", "eq", "'2022-05-31", "17:31:00", "UTC'"]))
    );
    assert_eq!(
        ids(filtered_data(data(), Some("created eq '2022-05-31'"))),
        Vec::<String>::new()
    );
}

#[test]
fn a_time_is_compared_as_it_is_shown() {
    let conditions = vec![Condition::Equals(
        Property::Created,
        "2022-05-31 17:31:00 UTC".to_string(),
    )];
    let all = data();
    assert!(ileap_data_model::filter::meets_all(&all[0], &conditions));
    assert_eq!(
        Timestamp::parse("2022-05-31T17:31:00Z").unwrap().shown(),
        Some("2022-05-31 17:31:00 UTC".to_string())
    );
}

fn malformed(words: &[&str]) -> FilterError {
    FilterError::MalformedCondition(words.iter().map(|w| w.to_string()).collect())
}

#[test]
fn errors_of_a_filter() {
    let err = |f: &str| filtered_data(data(), Some(f)).unwrap_err();
    assert_eq!(err(""), malformed(&[]));
    assert_eq!(err("created lt"), malformed(&["created", "lt"]));
    assert_eq!(err("a b c d"), malformed(&["a", "b", "c", "d"]));
    assert_eq!(
        err("created lt 2023'"),
        FilterError::MalformedValue("2023'".to_string())
    );
    assert_eq!(
        err("created lt '"),
        FilterError::MalformedValue("'".to_string())
    );
    assert_eq!(
        err("productIds/any(productId:(productId eq "),
        malformed(&["productIds/any", "productId:", "productId", "eq"])
    );
    assert_eq!(
        err("productIds/any(productId:(productId eq '))"),
        FilterError::MalformedValue("'".to_string())
    );
    assert_eq!(
        err("created lt 'yesterday'"),
        FilterError::InvalidDateTime("yesterday".to_string())
    );
    assert_eq!(
        err("colour lt '2023-06-27T13:00:00Z'"),
        FilterError::UnsupportedProperty("colour".to_string())
    );
    assert_eq!(
        err("colour eq 'red'"),
        FilterError::UnsupportedProperty("colour".to_string())
    );
    assert_eq!(
        err("productCategoryCpc lt '2023-06-27T13:00:00Z'"),
        FilterError::UnsupportedProperty("productCategoryCpc".to_string())
    );
    assert_eq!(
        err("created ne '2023-06-27T13:00:00Z'"),
        FilterError::UnsupportedOperator("ne".to_string())
    );
    assert_eq!(
        err("pcf/geographyCountry eq 'FR' and created lt 'x'"),
        FilterError::InvalidDateTime("x".to_string())
    );
}

#[test]
fn a_condition_of_two_parts_is_refused_with_the_parts_found() {
    assert_eq!(
        filtered_data(data(), Some("created eq")).unwrap_err().message(),
        "Not a valid condition, expected 3 parts, but found: [\"created\", \"eq\"]"
    );
    assert_eq!(
        filtered_data(Vec::<ProductFootprint<Toc>>::new(), Some("created eq"))
            .unwrap_err()
            .message(),
        "Not a valid condition, expected 3 parts, but found: [\"created\", \"eq\"]"
    );
}

#[test]
fn the_sentences_of_the_errors_end_with_what_was_found() {
    let err = |f: &str| filtered_data(data(), Some(f)).unwrap_err().message();
    assert_eq!(
        err(""),
        "Not a valid condition, expected 3 parts, but found: []"
    );
    assert_eq!(
        err("a \"b\" c\\d e"),
        "Not a valid condition, expected 3 parts, but found: [\"a\", \"\\\"b\\\"\", \"c\\\\d\", \"e\"]"
    );
    assert_eq!(
        err("created lt 2023'"),
        "Value must be a string enclosed in '...', but found: 2023'"
    );
    assert_eq!(err("colour eq 'red'"), "Unsupported property colour");
    assert_eq!(
        err("created ne '2023-06-27T13:00:00Z'"),
        "Unsupported operator ne"
    );
    assert_eq!(
        err("created lt 'yesterday'"),
        "Not a valid datetime: yesterday"
    );
}

#[test]
fn conditions_of_a_filter() {
    assert_eq!(
        parse_filter("(pcf/geographyCountry eq 'FR') and (updated lt '2023-06-27T12:12:04.000Z')"),
        Ok(vec![
            Condition::Equals(Property::GeographyCountry, "FR".to_string()),
            Condition::Compares(
                Property::Updated,
                Comparison::Lt,
                Timestamp::new(1_687_867_924, 0)
            ),
        ])
    );
    assert_eq!(
        parse_filter("updated ge\t'2023-06-27T12:12:04Z'"),
        Err(malformed(&["updated", "ge\t'2023-06-27T12:12:04Z'"]))
    );
    assert_eq!(
        parse_filter("companyIds/any(companyId:(companyId eq 'urn:a eq b'))"),
        Ok(vec![Condition::CompanyId("".to_string())])
    );
    assert_eq!(
        parse_filter("created eq 'x' and  updated   ge  '2023-06-27T12:12:04Z' "),
        Ok(vec![
            Condition::Equals(Property::Created, "x".to_string()),
            Condition::Compares(
                Property::Updated,
                Comparison::Ge,
                Timestamp::new(1_687_867_924, 0)
            ),
        ])
    );
}

#[test]
fn splitting_agrees_with_std() {
    for (s, sep) in [
        ("a and b and c", " and "),
        (" and ", " and "),
        ("a and  and b", " and "),
        ("", " and "),
        ("and", " and "),
        ("aaa", "aa"),
        ("aaaa", "aa"),
        ("x eq y eq z", " eq "),
        ("abc", ""),
        ("ab", "abc"),
        ("  a  b ", " "),
    ] {
        if sep.is_empty() {
            assert_eq!(texts(&split(&chars(s), &chars(sep))), vec![s.to_string()]);
        } else {
            let expected: Vec<String> = s.split(sep).map(|p| p.to_string()).collect();
            assert_eq!(texts(&split(&chars(s), &chars(sep))), expected, "{s:?} {sep:?}");
        }
    }
}

#[test]
fn trimming_agrees_with_std() {
    for s in [
        "",
        " ",
        "  a b  ",
        "\t\n a \r\u{b}\u{c}",
        "\u{a0}x\u{3000}",
        "\u{85}\u{1680}\u{2000}\u{200a}\u{2028}\u{2029}\u{202f}\u{205f}y",
        "\u{200b}z\u{feff}",
        "a",
    ] {
        assert_eq!(text(&trim(&chars(s))), s.trim(), "{s:?}");
    }
    for code in 0u32..0x3100 {
        if let Some(c) = char::from_u32(code) {
            assert_eq!(
                ileap_data_model::filter::space(c),
                c.is_whitespace(),
                "{code:x}"
            );
        }
    }
}

#[test]
fn words_are_the_pieces_between_blanks() {
    for s in ["a b c", "  a   b  ", "", " ", "a\tb c", "\ta \t b\n"] {
        let expected: Vec<String> = s
            .split(' ')
            .map(|p| p.trim())
            .filter(|p| !p.is_empty())
            .map(|p| p.to_string())
            .collect();
        assert_eq!(texts(&split_words(&chars(s))), expected, "{s:?}");
    }
}
