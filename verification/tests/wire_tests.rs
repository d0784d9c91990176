use ileap_data_model::{
    gen_rnd_demo_data, to_pcf, Assurance, AssuranceBoundary, AssuranceCoverage, AssuranceLevel,
    CarbonFootprint, CharacterizationFactors, DataQualityIndicators, Decimal, DecodeError,
    EmissionFactorDS, EmissionFactorDSSet, EnergyCarrier, EnergyCarrierType,
    ExemptedEmissionsPercent, Field, FloatBetween1and3, GeographicScope, GlecDistance, Hoc, ILeapType,
    Json, Location, NonEmptyString, NonEmptyStringVec, NonEmptyVec, Percent, PfId, PositiveDecimal,
    ProductFootprint, ProductOrSectorSpecificRule, ProductOrSectorSpecificRuleOperator,
    ProductOrSectorSpecificRuleSet, Reason, ShipmentFootprint, Tad, TadTempControl, Tce,
    TemperatureControl, Timestamp, Toc, TransportActivityUnit, TransportMode, TruckLoadingSequence,
    UNRegionOrSubregion, Validate, ValidationError, Wire, WrappedDecimal, ISO3166CC,
};
use ileap_data_model::numbers::{narrow, widen};
use serde_json::Value;

fn tree(v: &Value) -> Json {
    match v {
        Value::Null => Json::Null,
        Value::Bool(b) => Json::Bool(*b),
        Value::Number(n) => {
            if let Some(i) = n.as_i64() {
                Json::Integer(i as i128)
            } else if let Some(u) = n.as_u64() {
                Json::Integer(u as i128)
            } else {
                Json::Float {
                    bits: n.as_f64().unwrap().to_bits(),
                }
            }
        }
        Value::String(s) => Json::Text(s.clone()),
        Value::Array(items) => Json::Array(items.iter().map(tree).collect()),
        Value::Object(members) => Json::Object(
            members
                .iter()
                .map(|(k, v)| (k.clone(), tree(v)))
                .collect(),
        ),
    }
}

fn value(j: &Json) -> Value {
    match j {
        Json::Null => Value::Null,
        Json::Bool(b) => Value::Bool(*b),
        Json::Integer(n) => {
            if *n >= 0 {
                Value::Number((*n as u64).into())
            } else {
                Value::Number((*n as i64).into())
            }
        }
        Json::Float { bits } => {
            Value::Number(serde_json::Number::from_f64(f64::from_bits(*bits)).unwrap())
        }
        Json::Text(s) => Value::String(s.clone()),
        Json::Array(items) => Value::Array(items.iter().map(value).collect()),
        Json::Object(members) => Value::Object(
            members
                .iter()
                .map(|(k, v)| (k.clone(), value(v)))
                .collect(),
        ),
    }
}

fn read<T: Wire>(text: &str) -> Result<T, DecodeError> {
    let parsed: Value = serde_json::from_str(text).unwrap();
    T::from_json(&tree(&parsed))
}

fn write<T: Wire>(v: &T) -> String {
    serde_json::to_string(&value(&v.to_json())).unwrap()
}

fn written<T: Wire>(v: &T) -> Value {
    value(&v.to_json())
}

fn dec(mantissa: i64, scale: u32) -> WrappedDecimal {
    WrappedDecimal(Decimal::new(mantissa, scale))
}

#[test]
fn test_toc_deser() {
    let (json, expected) = (
        r#"{"tocId":"4561230","isVerified":true,"isAccredited":true,"mode":"Road","temperatureControl":"refrigerated","truckLoadingSequence":"FTL","energyCarriers":[{"energyCarrier":"Diesel","emissionFactorWTW":"3.6801","emissionFactorTTW":"3.2801", "relativeShare": "1"}],"co2eIntensityWTW":"3.6801","co2eIntensityTTW":"3.2801","transportActivityUnit":"tkm"}"#,
        Toc {
            toc_id: "4561230".to_string(),
            certifications: None,
            mode: TransportMode::Road,
            temperature_control: Some(TemperatureControl::Refrigerated),
            truck_loading_sequence: Some(TruckLoadingSequence::Ftl),
            energy_carriers: NonEmptyVec::new(vec![EnergyCarrier {
                energy_carrier: EnergyCarrierType::Diesel,
                emission_factor_wtw: dec(36801, 4),
                emission_factor_ttw: dec(32801, 4),
                feedstocks: None,
                energy_consumption: None,
                energy_consumption_unit: None,
                relative_share: dec(1, 0),
            }])
            .unwrap(),
            co2e_intensity_wtw: dec(36801, 4),
            co2e_intensity_ttw: dec(32801, 4),
            transport_activity_unit: TransportActivityUnit::Tkm,
            description: None,
            load_factor: None,
            empty_distance_factor: None,
            air_shipping_option: None,
            flight_length: None,
        },
    );

    let serialized = write(&expected);
    println!("seria: {serialized}");
    println!("input: {json}");

    let toc: Toc = read(json).unwrap();
    assert_eq!(toc, expected)
}

#[test]
fn test_ship_foot_deser() {
    let (json, expected) = (
        r#"{"mass":"87","shipmentId":"1237890","tces":[{"tceId":"abcdef", "prevTceIds": [], "tocId":"truck-40t-euro5-de","shipmentId":"1237890","mass":"87","distance":{"actual":"423"},"transportActivity":"36.801","co2eWTW":"36.801","co2eTTW":"3.2801"}]}"#,
        ShipmentFootprint {
            mass: "87".to_string(),
            volume: None,
            shipment_id: "1237890".to_string(),
            tces: NonEmptyVec::<Tce>::new(vec![Tce {
                tce_id: "abcdef".to_string(),
                prev_tce_ids: Some(vec![]),
                toc_id: Some("truck-40t-euro5-de".to_string()),
                hoc_id: None,
                shipment_id: "1237890".to_string(),
                consignment_id: None,
                mass: dec(87, 0),
                packaging_or_tr_eq_type: None,
                packaging_or_tr_eq_amount: None,
                distance: GlecDistance::new_actual(dec(423, 0)),
                origin: None,
                destination: None,
                transport_activity: dec(36801, 3),
                departure_at: None,
                arrival_at: None,
                flight_no: None,
                voyage_no: None,
                incoterms: None,
                co2e_wtw: dec(36801, 3),
                co2e_ttw: dec(32801, 4),
                nox_ttw: None,
                sox_ttw: None,
                ch4_ttw: None,
                pm_ttw: None,
            }])
            .unwrap(),
        },
    );

    let ship_foot: ShipmentFootprint = read(json).unwrap();
    assert_eq!(ship_foot, expected);

    let json = r#"{"mass":"87","shipmentId":"1237890","tces":[{"tceId":"abcdef", "prevTceIds": [], "tocId":"truck-40t-euro5-de","shipmentId":"1237890","mass":87,"distance":{"actual":423},"transportActivity":"36.801","co2eWTW":"36.801","co2eTTW":"3.2801"}]}"#;

    let nok_ship_foot: Result<ShipmentFootprint, DecodeError> = read(json);

    assert!(nok_ship_foot.is_err());
    assert_eq!(nok_ship_foot, Err(DecodeError::WrongType));
}

#[test]
fn toc_is_written_with_its_member_names() {
    let toc: Toc = read(
        r#"{"tocId":"4561230","mode":"Road","temperatureControl":"refrigerated","truckLoadingSequence":"FTL","energyCarriers":[{"energyCarrier":"Diesel","emissionFactorWTW":"3.6801","emissionFactorTTW":"3.2801","relativeShare":"1"}],"co2eIntensityWTW":"3.6801","co2eIntensityTTW":"3.2801","transportActivityUnit":"tkm"}"#,
    )
    .unwrap();
    let expected: Value = serde_json::from_str(
        r#"{"tocId":"4561230","mode":"Road","temperatureControl":"refrigerated","truckLoadingSequence":"FTL","energyCarriers":[{"energyCarrier":"Diesel","emissionFactorWTW":"3.6801","emissionFactorTTW":"3.2801","relativeShare":"1"}],"co2eIntensityWTW":"3.6801","co2eIntensityTTW":"3.2801","transportActivityUnit":"tkm"}"#,
    )
    .unwrap();
    assert_eq!(written(&toc), expected);
}

#[test]
fn absent_and_null_members_are_the_same() {
    let a: Toc = read(
        r#"{"tocId":"t","description":null,"mode":"Rail","energyCarriers":[{"energyCarrier":"HVO","emissionFactorWTW":"1","emissionFactorTTW":"1","relativeShare":"1","feedstocks":null}],"co2eIntensityWTW":"1","co2eIntensityTTW":"1","transportActivityUnit":"TEUkm"}"#,
    )
    .unwrap();
    assert_eq!(a.description, None);
    assert_eq!(a.energy_carriers.0[0].feedstocks, None);
    assert_eq!(a.transport_activity_unit, TransportActivityUnit::TEUkm);
    let missing: Result<Toc, DecodeError> = read(
        r#"{"tocId":null,"mode":"Rail","energyCarriers":[],"co2eIntensityWTW":"1","co2eIntensityTTW":"1","transportActivityUnit":"tkm"}"#,
    );
    assert_eq!(missing, Err(DecodeError::Missing));
}

#[test]
fn reading_reports_the_first_error_in_the_order_of_the_members() {
    let r: Result<Toc, DecodeError> = read(r#"{"mode":"Canal"}"#);
    assert_eq!(r, Err(DecodeError::Missing));
    let r: Result<Toc, DecodeError> = read(r#"{"tocId":"t","mode":"Canal"}"#);
    assert_eq!(r, Err(DecodeError::UnknownName));
    let r: Result<Toc, DecodeError> = read(r#"{"tocId":7,"mode":"Canal"}"#);
    assert_eq!(r, Err(DecodeError::WrongType));
    let r: Result<Toc, DecodeError> = read(
        r#"{"tocId":"t","mode":"Road","energyCarriers":[],"co2eIntensityWTW":"1","co2eIntensityTTW":"1","transportActivityUnit":"tkm"}"#,
    );
    assert_eq!(
        r,
        Err(DecodeError::Invalid(ValidationError {
            field: Field::NonEmptyVec,
            reason: Reason::Empty
        }))
    );
    let r: Result<Toc, DecodeError> = read(
        r#"{"tocId":"t","mode":"Road","energyCarriers":[{"energyCarrier":"Diesel","emissionFactorWTW":"1e3","emissionFactorTTW":"1","relativeShare":"1"}],"co2eIntensityWTW":"1","co2eIntensityTTW":"1","transportActivityUnit":"tkm"}"#,
    );
    assert_eq!(
        r,
        Err(DecodeError::Invalid(ValidationError {
            field: Field::Decimal,
            reason: Reason::Malformed
        }))
    );
    let r: Result<Toc, DecodeError> = read(r#"["tocId"]"#);
    assert_eq!(r, Err(DecodeError::WrongType));
}

#[test]
fn of_two_members_with_one_name_the_later_counts() {
    let doc = Json::Object(vec![
        ("name".to_string(), Json::Text("first".to_string())),
        ("version".to_string(), Json::Text("1".to_string())),
        ("name".to_string(), Json::Text("second".to_string())),
    ]);
    let ds = EmissionFactorDS::from_json(&doc).unwrap();
    assert_eq!(ds.name.0, "second");
}

#[test]
fn distance_keys_on_the_wire() {
    let d: GlecDistance = read(r#"{"actual":"423"}"#).unwrap();
    assert_eq!(d, GlecDistance::new_actual(dec(423, 0)));
    let d: GlecDistance = read(r#"{"actual":"423","gcd":null,"sfd":null}"#).unwrap();
    assert_eq!(d, GlecDistance::new_actual(dec(423, 0)));
    let d: GlecDistance = read(r#"{"gcd":"400","sfd":"410.5"}"#).unwrap();
    assert_eq!(
        d,
        GlecDistance::Gcd {
            actual: None,
            gcd: dec(400, 0),
            sfd: Some(dec(4105, 1))
        }
    );
    assert_eq!(write(&d), r#"{"gcd":"400","sfd":"410.5"}"#);
    let none: Result<GlecDistance, DecodeError> = read(r#"{}"#);
    assert_eq!(
        none,
        Err(DecodeError::Invalid(ValidationError {
            field: Field::GlecDistance,
            reason: Reason::Missing
        }))
    );
    let number: Result<GlecDistance, DecodeError> = read(r#"{"actual":423}"#);
    assert_eq!(number, Err(DecodeError::WrongType));
}

#[test]
fn payload_is_read_as_the_first_kind_that_fits() {
    let shipment = r#"{"mass":"87","shipmentId":"1237890","tces":[{"tceId":"abcdef","tocId":"truck","shipmentId":"1237890","mass":"87","distance":{"actual":"423"},"transportActivity":"36.801","co2eWTW":"36.801","co2eTTW":"3.2801"}]}"#;
    let toc = r#"{"tocId":"t","mode":"Rail","energyCarriers":[{"energyCarrier":"HVO","emissionFactorWTW":"1","emissionFactorTTW":"1","relativeShare":"1"}],"co2eIntensityWTW":"1","co2eIntensityTTW":"1","transportActivityUnit":"tkm"}"#;
    let hoc = r#"{"hocId":"h","hubType":"Warehouse","energyCarriers":[{"energyCarrier":"Electric","emissionFactorWTW":"1","emissionFactorTTW":"1","relativeShare":"1"}],"co2eIntensityWTW":"1","co2eIntensityTTW":"1","hubActivityUnit":"tonnes"}"#;
    assert!(matches!(
        read::<ILeapType>(shipment),
        Ok(ILeapType::ShipmentFootprint(_))
    ));
    assert!(matches!(read::<ILeapType>(toc), Ok(ILeapType::Toc(_))));
    assert!(matches!(read::<ILeapType>(hoc), Ok(ILeapType::Hoc(_))));
    assert_eq!(read::<ILeapType>(r#"{}"#), Err(DecodeError::WrongType));
    for text in [shipment, toc, hoc] {
        let payload: ILeapType = read(text).unwrap();
        let expected: Value = serde_json::from_str(text).unwrap();
        assert_eq!(written(&payload), expected);
    }
}

fn full_carbon_footprint() -> CarbonFootprint {
    CarbonFootprint {
        declared_unit: ileap_data_model::DeclaredUnit::KilowattHour,
        unitary_product_amount: ileap_data_model::StrictlyPositiveDecimal(Decimal::new(125, 1)),
        p_cf_excluding_biogenic: PositiveDecimal(Decimal::new(5, 1)),
        p_cf_including_biogenic: Some(dec(-3, 1)),
        fossil_ghg_emissions: PositiveDecimal(Decimal::new(4, 1)),
        fossil_carbon_content: PositiveDecimal(Decimal::new(0, 0)),
        biogenic_carbon_content: PositiveDecimal(Decimal::new(1, 2)),
        d_luc_ghg_emissions: Some(PositiveDecimal(Decimal::new(1, 1))),
        land_management_ghg_emissions: None,
        other_biogenic_ghg_emissions: Some(PositiveDecimal(Decimal::new(0, 0))),
        i_luc_ghg_emissions: None,
        biogenic_carbon_withdrawal: Some(ileap_data_model::NegativeDecimal(Decimal::new(-8, 1))),
        aircraft_ghg_emissions: None,
        characterization_factors: CharacterizationFactors::Ar6,
        ipcc_characterization_factors_sources:
            ileap_data_model::IpccCharacterizationFactorsSources(vec![
                ileap_data_model::IpccCharacterizationFactorsSource("AR6".to_string()),
                ileap_data_model::IpccCharacterizationFactorsSource("AR5".to_string()),
            ]),
        cross_sectoral_standards_used: ileap_data_model::CrossSectoralStandardSet(vec![
            ileap_data_model::CrossSectoralStandard::Ghgp,
            ileap_data_model::CrossSectoralStandard::ISO14040_44,
        ]),
        product_or_sector_specific_rules: Some(ProductOrSectorSpecificRuleSet(vec![
            ProductOrSectorSpecificRule {
                operator: ProductOrSectorSpecificRuleOperator::Other,
                rule_names: NonEmptyStringVec(vec![NonEmptyString("rule".to_string())]),
                other_operator_name: Some(NonEmptyString("operator".to_string())),
            },
        ])),
        biogenic_accounting_methodology: Some(
            ileap_data_model::BiogenicAccountingMethodology::Quantis,
        ),
        boundary_processes_description: "from \"cradle\" to gate".to_string(),
        reference_period_start: Timestamp::new(1_640_995_200, 0),
        reference_period_end: Timestamp::new(1_672_531_199, 999_000_000),
        geographic_scope: Some(GeographicScope::Regional(UNRegionOrSubregion::WesternEurope)),
        secondary_emission_factor_sources: Some(EmissionFactorDSSet(vec![EmissionFactorDS {
            name: NonEmptyString("ecoinvent".to_string()),
            version: NonEmptyString("3.9.1".to_string()),
        }])),
        exempted_emissions_percent: ExemptedEmissionsPercent {
            bits: 2.5f64.to_bits(),
        },
        exempted_emissions_description: "none".to_string(),
        packaging_emissions_included: true,
        packaging_ghg_emissions: Some(PositiveDecimal(Decimal::new(1, 3))),
        allocation_rules_description: Some("by mass".to_string()),
        uncertainty_assessment_description: None,
        primary_data_share: Some(Percent {
            bits: 56.12f64.to_bits(),
        }),
        dqi: Some(DataQualityIndicators {
            coverage_percent: Percent {
                bits: 100.0f64.to_bits(),
            },
            technological_d_q_r: FloatBetween1and3 {
                bits: 1.0f32.to_bits(),
            },
            temporal_d_q_r: FloatBetween1and3 {
                bits: 2.5f32.to_bits(),
            },
            geographical_d_q_r: FloatBetween1and3 {
                bits: 3.0f32.to_bits(),
            },
            completeness_d_q_r: FloatBetween1and3 {
                bits: 1.25f32.to_bits(),
            },
            reliability_d_q_r: FloatBetween1and3 {
                bits: 2.0f32.to_bits(),
            },
        }),
        assurance: Some(Assurance {
            assurance: true,
            coverage: Some(AssuranceCoverage::PcfSystem),
            level: Some(AssuranceLevel::Reasonable),
            boundary: Some(AssuranceBoundary::CradleToGate),
            provider_name: "provider".to_string(),
            completed_at: Some(Timestamp::new(1_654_018_260, 0)),
            standard_name: Some("ISO".to_string()),
            comments: None,
        }),
    }
}

#[test]
fn carbon_footprint_round_trip() {
    let pcf = full_carbon_footprint();
    assert_eq!(pcf.validate(), Ok(()));
    let doc = written(&pcf);
    assert_eq!(doc["declaredUnit"], "kilowatt hour");
    assert_eq!(doc["unitaryProductAmount"], "12.5");
    assert_eq!(doc["pCfExcludingBiogenic"], "0.5");
    assert_eq!(doc["pCfIncludingBiogenic"], "-0.3");
    assert_eq!(doc["biogenicCarbonWithdrawal"], "-0.8");
    assert_eq!(doc["dLucGhgEmissions"], "0.1");
    assert_eq!(doc["characterizationFactors"], "AR6");
    assert_eq!(
        doc["ipccCharacterizationFactorsSources"],
        serde_json::to_value(["AR6", "AR5"]).unwrap()
    );
    assert_eq!(
        doc["crossSectoralStandardsUsed"],
        serde_json::to_value(["GHGP Product", "ISO14040-44"]).unwrap()
    );
    assert_eq!(doc["referencePeriodStart"], "2022-01-01T00:00:00Z");
    assert_eq!(doc["referencePeriodEnd"], "2022-12-31T23:59:59.999Z");
    assert_eq!(doc["geographyRegionOrSubregion"], "Western Europe");
    assert!(doc.get("geographyCountry").is_none());
    assert!(doc.get("geographicScope").is_none());
    assert!(doc.get("landManagementGhgEmissions").is_none());
    assert_eq!(doc["exemptedEmissionsPercent"], 2.5);
    assert_eq!(doc["primaryDataShare"], 56.12);
    assert_eq!(doc["dqi"]["coveragePercent"], 100.0);
    assert_eq!(doc["dqi"]["technologicalDQR"], 1.0);
    assert_eq!(doc["dqi"]["temporalDQR"], 2.5);
    assert_eq!(doc["assurance"]["coverage"], "PCF system");
    assert_eq!(doc["assurance"]["boundary"], "Cradle-to-Gate");
    assert_eq!(doc["assurance"]["completedAt"], "2022-05-31T17:31:00Z");
    assert_eq!(doc["packagingEmissionsIncluded"], true);
    assert_eq!(
        doc["productOrSectorSpecificRules"][0]["otherOperatorName"],
        "operator"
    );

    let text = serde_json::to_string(&doc).unwrap();
    let back: CarbonFootprint = read(&text).unwrap();
    assert_eq!(back, pcf);
}

#[test]
fn geographic_keys_in_a_carbon_footprint() {
    let mut pcf = full_carbon_footprint();
    let base = written(&pcf);

    pcf.geographic_scope = Some(GeographicScope::Country(ISO3166CC("FR".to_string())));
    let doc = written(&pcf);
    assert_eq!(doc["geographyCountry"], "FR");
    assert!(doc.get("geographyRegionOrSubregion").is_none());
    assert_eq!(read::<CarbonFootprint>(&doc.to_string()), Ok(pcf.clone()));

    pcf.geographic_scope = Some(GeographicScope::Subdivision(NonEmptyString(
        "FR-89".to_string(),
    )));
    let doc = written(&pcf);
    assert_eq!(doc["geographyCountrySubdivision"], "FR-89");
    assert_eq!(read::<CarbonFootprint>(&doc.to_string()), Ok(pcf.clone()));

    pcf.geographic_scope = None;
    let doc = written(&pcf);
    for key in [
        "geographyRegionOrSubregion",
        "geographyCountry",
        "geographyCountrySubdivision",
    ] {
        assert!(doc.get(key).is_none());
    }
    assert_eq!(read::<CarbonFootprint>(&doc.to_string()), Ok(pcf.clone()));

    pcf.geographic_scope = Some(GeographicScope::Global);
    assert_eq!(written(&pcf), doc);
    let back: CarbonFootprint = read(&doc.to_string()).unwrap();
    assert_eq!(back.geographic_scope, None);

    let mut two = base.clone();
    two["geographyCountry"] = Value::String("FR".to_string());
    assert_eq!(
        read::<CarbonFootprint>(&two.to_string()),
        Err(DecodeError::Invalid(ValidationError {
            field: Field::GeographicScope,
            reason: Reason::Conflict
        }))
    );
    let mut three = two.clone();
    three["geographyCountrySubdivision"] = Value::String("FR-89".to_string());
    assert!(read::<CarbonFootprint>(&three.to_string()).is_err());
    let mut lower = base.clone();
    lower
        .as_object_mut()
        .unwrap()
        .remove("geographyRegionOrSubregion");
    lower["geographyCountry"] = Value::String("fr".to_string());
    assert_eq!(
        read::<CarbonFootprint>(&lower.to_string()),
        Err(DecodeError::Invalid(ValidationError {
            field: Field::Iso3166Cc,
            reason: Reason::Malformed
        }))
    );
}

#[test]
fn whole_numbers_are_accepted_for_percentages() {
    let mut doc = written(&full_carbon_footprint());
    doc["exemptedEmissionsPercent"] = serde_json::to_value(3).unwrap();
    doc["primaryDataShare"] = serde_json::to_value(100).unwrap();
    doc["dqi"]["technologicalDQR"] = serde_json::to_value(2).unwrap();
    let pcf: CarbonFootprint = read(&doc.to_string()).unwrap();
    assert_eq!(pcf.exempted_emissions_percent.bits, 3.0f64.to_bits());
    assert_eq!(pcf.primary_data_share.unwrap().bits, 100.0f64.to_bits());
    assert_eq!(
        pcf.dqi.unwrap().technological_d_q_r.bits,
        2.0f32.to_bits()
    );

    doc["exemptedEmissionsPercent"] = serde_json::to_value(6).unwrap();
    assert_eq!(
        read::<CarbonFootprint>(&doc.to_string()),
        Err(DecodeError::Invalid(ValidationError {
            field: Field::ExemptedEmissionsPercent,
            reason: Reason::OutOfRange
        }))
    );
    doc["exemptedEmissionsPercent"] = serde_json::to_value(5.5).unwrap();
    assert!(read::<CarbonFootprint>(&doc.to_string()).is_err());
    doc["exemptedEmissionsPercent"] = serde_json::to_value("5").unwrap();
    assert_eq!(
        read::<CarbonFootprint>(&doc.to_string()),
        Err(DecodeError::WrongType)
    );
}

#[test]
fn every_whole_percentage_has_the_bits_of_its_number() {
    for n in 0..=100u8 {
        let p = Percent::from_json(&Json::Integer(n as i128)).unwrap();
        assert_eq!(p.bits, (n as f64).to_bits(), "{n}");
    }
    for n in 0..128u8 {
        assert_eq!(
            ileap_data_model::numbers::whole_number_bits(n),
            (n as f64).to_bits()
        );
    }
    for n in 1..=3u8 {
        let r = FloatBetween1and3::from_json(&Json::Integer(n as i128)).unwrap();
        assert_eq!(r.bits, (n as f32).to_bits());
    }
    assert!(Percent::from_json(&Json::Integer(101)).is_err());
    assert!(Percent::from_json(&Json::Integer(-1)).is_err());
    assert!(FloatBetween1and3::from_json(&Json::Integer(0)).is_err());
    assert!(FloatBetween1and3::from_json(&Json::Integer(4)).is_err());
}

#[test]
fn converted_footprint_round_trip() {
    let toc: Toc = read(
        r#"{"tocId":"4561230","mode":"Road","energyCarriers":[{"energyCarrier":"Diesel","emissionFactorWTW":"3.6801","emissionFactorTTW":"3.2801","relativeShare":"1"}],"co2eIntensityWTW":"3.6801","co2eIntensityTTW":"3.2801","transportActivityUnit":"tkm"}"#,
    )
    .unwrap();
    let pf = to_pcf(toc, "test", "urn:test", None).unwrap();
    let doc = written(&pf);
    assert_eq!(doc["specVersion"], "2.2.0");
    assert_eq!(doc["version"], 1);
    assert_eq!(doc["status"], "Active");
    assert_eq!(doc["companyName"], "test");
    assert_eq!(doc["companyIds"], serde_json::to_value(["urn:test"]).unwrap());
    assert_eq!(doc["productCategoryCpc"], "83117");
    assert_eq!(doc["pcf"]["declaredUnit"], "ton kilometer");
    assert_eq!(doc["pcf"]["unitaryProductAmount"], "1");
    assert_eq!(doc["pcf"]["pCfExcludingBiogenic"], "3.6801");
    assert_eq!(doc["pcf"]["exemptedEmissionsPercent"], 0.0);
    assert_eq!(
        doc["pcf"]["crossSectoralStandardsUsed"],
        serde_json::to_value(["ISO14083"]).unwrap()
    );
    assert_eq!(
        doc["extensions"][0]["dataSchema"],
        "https://api.ileap.sine.dev/toc.json"
    );
    assert_eq!(doc["extensions"][0]["specVersion"], "0.2.0");
    assert_eq!(doc["extensions"][0]["data"]["tocId"], "4561230");
    assert_eq!(
        PfId::parse(doc["id"].as_str().unwrap()).unwrap(),
        pf.id
    );
    assert!(doc.get("updated").is_none());
    assert!(doc.get("precedingPfIds").is_none());

    let back: ProductFootprint<Toc> = read(&doc.to_string()).unwrap();
    assert_eq!(back, pf);
}

#[test]
fn generated_footprints_round_trip() {
    for _ in 0..5 {
        for footprint in gen_rnd_demo_data(6) {
            let text = write(&footprint);
            let back: ProductFootprint<ILeapType> = read(&text).unwrap();
            assert_eq!(back, footprint);
            assert_eq!(back.validate(), Ok(()));
        }
    }
}

#[test]
fn transport_activity_data_round_trip() {
    let tad = Tad {
        activity_id: "a-1".to_string(),
        consignment_ids: vec!["c-1".to_string(), "c-2".to_string()],
        distance: GlecDistance::new_sfd(dec(1234, 1)),
        mass: Some(dec(5000, 0)),
        load_factor: None,
        empty_distance_factor: Some(dec(1, 1)),
        origin: Location {
            street: Some("Main Street 1".to_string()),
            zip: None,
            city: "Bremen".to_string(),
            country: ISO3166CC("DE".to_string()),
            iata: None,
            locode: Some(ileap_data_model::Locode("DEBRE".to_string())),
            uic: Some(ileap_data_model::UicCode("80".to_string())),
            lat: Some(dec(530793, 4)),
            lng: Some(dec(88017, 4)),
        },
        destination: Location {
            street: None,
            zip: Some("10115".to_string()),
            city: "Berlin".to_string(),
            country: ISO3166CC("DE".to_string()),
            iata: Some(ileap_data_model::IataCode("BER".to_string())),
            locode: None,
            uic: None,
            lat: None,
            lng: None,
        },
        departure_at: Timestamp::new(1_700_000_000, 0),
        arrival_at: Timestamp::new(1_700_020_000, 500_000_000),
        mode: TransportMode::InlandWaterway,
        packaging_or_tr_eq_type: Some(ileap_data_model::PackagingOrTrEqType::ContainerFEU),
        packaging_or_tr_eq_amount: Some(12),
        energy_carriers: None,
        temperature_control: Some(TadTempControl::Refrigerated),
    };
    assert_eq!(tad.validate(), Ok(()));
    let doc = written(&tad);
    assert_eq!(doc["distance"]["sfd"], "123.4");
    assert_eq!(doc["packagingOrTrEqType"], "Container-FEU");
    assert_eq!(doc["packagingOrTrEqAmount"], 12);
    assert_eq!(doc["arrivalAt"], "2023-11-15T03:46:40.500Z");
    assert_eq!(doc["origin"]["locode"], "DEBRE");
    let back: Tad = read(&doc.to_string()).unwrap();
    assert_eq!(back, tad);
}

#[test]
fn ratings_are_narrowed_to_the_nearest_32_bit_number() {
    for x in [1.0f32, 1.5, 2.0, 2.7182817, 3.0, 1.0000001, 2.9999998] {
        assert_eq!(widen(x.to_bits()), (x as f64).to_bits(), "{x}");
        assert_eq!(narrow((x as f64).to_bits()), Some(x.to_bits()), "{x}");
    }
    for y in [1.1f64, 2.123456789, 0.99999999999, 2.99999999999, 1.00000005960464477539, 3.0000001] {
        assert_eq!(narrow(y.to_bits()), Some((y as f32).to_bits()), "{y}");
    }
    assert_eq!(narrow(0.0f64.to_bits()), None);
    assert_eq!(narrow(f64::INFINITY.to_bits()), None);
    assert_eq!(narrow((-1.0f64).to_bits()), None);
    let mut bits = 1.0f64.to_bits();
    for _ in 0..2000 {
        bits += 0x0000_0003_1234_5678;
        let y = f64::from_bits(bits);
        if y > 3.5 {
            break;
        }
        assert_eq!(narrow(bits), Some((y as f32).to_bits()), "{y}");
        let read = FloatBetween1and3::from_json(&Json::Float { bits });
        assert_eq!(read.is_ok(), (1.0..=3.0).contains(&(y as f32)), "{y}");
    }
}
