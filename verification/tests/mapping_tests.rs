use ileap_data_model::{
    assemble_pcf, to_char_factors, to_pcf, CharacterizationFactors, CrossSectoralStandard, Decimal,
    DeclaredUnit, EnergyCarrier, EnergyCarrierType, EnergyConsumptionUnit, Feedstock,
    FeedstockType, Field, GlecDistance, Hoc, HubActivityUnit, HubType, ILeapType, NonEmptyVec,
    PcfError, PfId, PfStatus, Reason, ShipmentFootprint, Tce, TemperatureControl, Timestamp, Toc,
    TransportActivityUnit, TransportMode, Validate, ValidationError, WrappedDecimal,
};

fn dec(mantissa: i64, scale: u32) -> WrappedDecimal {
    WrappedDecimal(Decimal::new(mantissa, scale))
}

fn leg(
    tce_id: &str,
    prev: Vec<&str>,
    toc_id: Option<&str>,
    hoc_id: Option<&str>,
    distance: WrappedDecimal,
    transport_activity: WrappedDecimal,
    co2e_wtw: WrappedDecimal,
    co2e_ttw: WrappedDecimal,
) -> Tce {
    Tce {
        tce_id: tce_id.to_string(),
        prev_tce_ids: Some(prev.into_iter().map(|s| s.to_string()).collect()),
        toc_id: toc_id.map(|s| s.to_string()),
        hoc_id: hoc_id.map(|s| s.to_string()),
        shipment_id: "shipment-test".to_string(),
        mass: dec(40000, 0),
        distance: GlecDistance::new_actual(distance),
        transport_activity,
        co2e_wtw,
        co2e_ttw,
        consignment_id: None,
        packaging_or_tr_eq_type: None,
        packaging_or_tr_eq_amount: None,
        origin: None,
        destination: None,
        departure_at: None,
        arrival_at: None,
        flight_no: None,
        voyage_no: None,
        incoterms: None,
        nox_ttw: None,
        sox_ttw: None,
        ch4_ttw: None,
        pm_ttw: None,
    }
}

fn three_leg_shipment() -> ShipmentFootprint {
    ShipmentFootprint {
        shipment_id: "shipment-test".to_string(),
        tces: NonEmptyVec::new(vec![
            leg(
                "tce-1-toc-rail-1",
                vec![],
                Some("toc-rail-1"),
                None,
                dec(423, 0),
                dec(16920, 0),
                dec(11844, 2),
                dec(0, 0),
            ),
            leg(
                "tce-2-hoc-transshipment-1",
                vec!["tce-1-toc-rail-1"],
                None,
                Some("hoc-transshipment-1"),
                dec(0, 0),
                dec(0, 0),
                dec(1320, 0),
                dec(400, 0),
            ),
            leg(
                "tce-3-toc-road-1",
                vec!["tce-2-hoc-transshipment-1"],
                Some("toc-road-1"),
                None,
                dec(423, 0),
                dec(16920, 0),
                dec(169262, 2),
                dec(150588, 2),
            ),
        ])
        .unwrap(),
        mass: "40000".to_string(),
        volume: None,
    }
}

fn rail_toc() -> Toc {
    Toc {
        toc_id: "toc-test".to_string(),
        certifications: None,
        mode: TransportMode::Rail,
        load_factor: Some("0.6".to_string()),
        empty_distance_factor: Some("0.33".to_string()),
        temperature_control: Some(TemperatureControl::Ambient),
        truck_loading_sequence: None,
        energy_carriers: NonEmptyVec::new(vec![EnergyCarrier {
            energy_carrier: EnergyCarrierType::Electric,
            feedstocks: Some(vec![Feedstock {
                feedstock: FeedstockType::Grid,
                feedstock_share: None,
                region_provenance: Some("Europe".to_string()),
            }]),
            energy_consumption: None,
            energy_consumption_unit: Some(EnergyConsumptionUnit::MJ),
            emission_factor_wtw: dec(97, 0),
            emission_factor_ttw: dec(0, 0),
            relative_share: dec(1, 0),
        }])
        .unwrap(),
        co2e_intensity_wtw: dec(7, 3),
        co2e_intensity_ttw: dec(0, 0),
        transport_activity_unit: TransportActivityUnit::Tkm,
        description: None,
        air_shipping_option: None,
        flight_length: None,
    }
}

fn transshipment_hoc(unit: HubActivityUnit) -> Hoc {
    Hoc {
        hoc_id: "hoc-test".to_string(),
        hub_type: HubType::Transshipment,
        temperature_control: Some(TemperatureControl::Refrigerated),
        inbound_transport_mode: Some(TransportMode::Road),
        outbound_transport_mode: Some(TransportMode::Rail),
        certifications: None,
        hub_location: None,
        packaging_or_tr_eq_type: None,
        packaging_or_tr_eq_amount: None,
        description: None,
        energy_carriers: NonEmptyVec::new(vec![
            EnergyCarrier {
                energy_carrier: EnergyCarrierType::Diesel,
                feedstocks: None,
                energy_consumption: None,
                energy_consumption_unit: Some(EnergyConsumptionUnit::Kg),
                emission_factor_wtw: dec(413, 2),
                emission_factor_ttw: dec(317, 2),
                relative_share: dec(5, 1),
            },
            EnergyCarrier {
                energy_carrier: EnergyCarrierType::Electric,
                feedstocks: None,
                energy_consumption: None,
                energy_consumption_unit: Some(EnergyConsumptionUnit::MJ),
                emission_factor_wtw: dec(97, 0),
                emission_factor_ttw: dec(0, 0),
                relative_share: dec(5, 1),
            },
        ])
        .unwrap(),
        co2e_intensity_wtw: dec(33, 0),
        co2e_intensity_ttw: dec(10, 0),
        hub_activity_unit: unit,
    }
}

#[test]
fn ship_foot_to_pfc() {
    let ship_foot = three_leg_shipment();

    let pfc = to_pcf(ship_foot, "test", "urn:test", None).unwrap();

    assert_eq!(
        pfc.product_name_company.0,
        "ShipmentFootprint with id shipment-test"
    );
    assert_eq!(pfc.pcf.declared_unit, DeclaredUnit::TonKilometer);
    assert_eq!(pfc.pcf.unitary_product_amount.0, Decimal::new(33840, 0));
    assert_eq!(pfc.pcf.p_cf_excluding_biogenic.0, Decimal::new(313106, 2));
}

#[test]
fn toc_to_pcf() {
    let toc = rail_toc();

    let pfc = to_pcf(toc, "test", "urn:test", None).unwrap();

    assert_eq!(pfc.product_name_company.0, "TOC with ID toc-test");
    assert_eq!(pfc.pcf.declared_unit, DeclaredUnit::TonKilometer);
    assert_eq!(pfc.pcf.unitary_product_amount.0, Decimal::new(1, 0));
    assert_eq!(pfc.pcf.p_cf_excluding_biogenic.0, Decimal::new(7, 3));
}

#[test]
fn hoc_to_pfc() {
    let hoc = transshipment_hoc(HubActivityUnit::Tonnes);

    let pfc = to_pcf(hoc, "test", "urn:test", None).unwrap();

    assert_eq!(pfc.product_name_company.0, "HOC with ID hoc-test");
    assert_eq!(pfc.pcf.declared_unit, DeclaredUnit::Kilogram);
    assert_eq!(pfc.pcf.unitary_product_amount.0, Decimal::new(1000, 0));
    assert_eq!(pfc.pcf.p_cf_excluding_biogenic.0, Decimal::new(33, 0));
}

#[test]
fn hoc_with_teu_throughput_is_not_converted() {
    let hoc = transshipment_hoc(HubActivityUnit::TEU);
    assert_eq!(
        to_pcf(hoc, "test", "urn:test", None),
        Err(PcfError::UnsupportedThroughputUnit)
    );
}

#[test]
fn envelope_has_the_fixed_members() {
    let toc = rail_toc();
    let pfc = to_pcf(toc.clone(), "SINE Foundation", "urn:sine:example", None).unwrap();

    assert!(pfc.id.is_valid());
    assert_eq!(pfc.spec_version.0, "2.2.0");
    assert_eq!(pfc.version.0, 1);
    assert_eq!(pfc.status, PfStatus::Active);
    assert_eq!(pfc.company_name.0, "SINE Foundation");
    assert_eq!(pfc.company_ids.0.len(), 1);
    assert_eq!(pfc.company_ids.0[0].0, "urn:sine:example");
    assert_eq!(pfc.product_ids.0.len(), 1);
    assert_eq!(
        pfc.product_ids.0[0].0,
        "urn:pathfinder:product:customcode:vendor-assigned:toc:toc-test"
    );
    assert_eq!(pfc.product_category_cpc.0, "83117");
    assert_eq!(pfc.product_description, "");
    assert_eq!(pfc.comment, "");
    assert_eq!(pfc.pcf.fossil_ghg_emissions.0, Decimal::new(7, 3));
    assert_eq!(pfc.pcf.fossil_carbon_content.0, Decimal::new(0, 0));
    assert_eq!(pfc.pcf.biogenic_carbon_content.0, Decimal::new(0, 0));
    assert_eq!(
        pfc.pcf.cross_sectoral_standards_used.0,
        vec![CrossSectoralStandard::ISO14083]
    );
    assert!(!pfc.pcf.packaging_emissions_included);
    assert_eq!(pfc.pcf.exempted_emissions_percent.bits, 0.0f64.to_bits());
    assert_eq!(pfc.pcf.reference_period_start, pfc.created);
    assert_eq!(
        pfc.pcf.reference_period_end,
        Timestamp::new(pfc.created.secs + 364 * 86_400, pfc.created.nanos)
    );
    let extensions = pfc.extensions.clone().unwrap();
    assert_eq!(extensions.len(), 1);
    assert_eq!(extensions[0].spec_version.0, "0.2.0");
    assert_eq!(extensions[0].data_schema, "https://api.ileap.sine.dev/toc.json");
    assert_eq!(
        extensions[0].documentation,
        Some("https://sine-fdn.github.io/ileap-extension/".to_string())
    );
    assert_eq!(extensions[0].data, toc);
    assert_eq!(pfc.validate(), Ok(()));
}

#[test]
fn shipment_schema_and_product_id_name_the_kind() {
    let pfc = to_pcf(three_leg_shipment(), "test", "urn:test", None).unwrap();
    assert_eq!(
        pfc.product_ids.0[0].0,
        "urn:pathfinder:product:customcode:vendor-assigned:shipment:shipment-test"
    );
    assert_eq!(
        pfc.extensions.unwrap()[0].data_schema,
        "https://api.ileap.sine.dev/shipment-footprint.json"
    );
}

#[test]
fn payload_enum_maps_like_its_content() {
    let pfc = to_pcf(
        ILeapType::Hoc(transshipment_hoc(HubActivityUnit::Tonnes)),
        "test",
        "urn:test",
        Some(vec![CharacterizationFactors::Ar6]),
    )
    .unwrap();
    assert_eq!(pfc.product_name_company.0, "HOC with ID hoc-test");
    assert_eq!(pfc.pcf.declared_unit, DeclaredUnit::Kilogram);
    assert_eq!(pfc.pcf.characterization_factors, CharacterizationFactors::Ar6);
    assert_eq!(
        to_pcf(
            ILeapType::Hoc(transshipment_hoc(HubActivityUnit::TEU)),
            "test",
            "urn:test",
            None
        ),
        Err(PcfError::UnsupportedThroughputUnit)
    );
}

#[test]
fn conversion_rejects_an_empty_company_name() {
    assert_eq!(
        to_pcf(rail_toc(), "", "urn:test", None),
        Err(PcfError::Validation(ValidationError {
            field: Field::NonEmptyString,
            reason: Reason::Empty
        }))
    );
}

#[test]
fn conversion_rejects_a_company_id_that_is_no_urn() {
    assert_eq!(
        to_pcf(rail_toc(), "test", "test", None),
        Err(PcfError::Validation(ValidationError {
            field: Field::Urn,
            reason: Reason::Malformed
        }))
    );
    assert!(to_pcf(rail_toc(), "test", "URN:test", None).is_ok());
}

#[test]
fn conversion_rejects_a_shipment_without_transport_activity() {
    let mut shipment = three_leg_shipment();
    shipment.tces.0.truncate(2);
    shipment.tces.0.remove(0);
    assert_eq!(
        to_pcf(shipment, "test", "urn:test", None),
        Err(PcfError::Validation(ValidationError {
            field: Field::StrictlyPositiveDecimal,
            reason: Reason::OutOfRange
        }))
    );
}

#[test]
fn conversion_rejects_negative_emissions() {
    let mut toc = rail_toc();
    toc.co2e_intensity_wtw = dec(-7, 3);
    assert_eq!(
        to_pcf(toc, "test", "urn:test", None),
        Err(PcfError::Validation(ValidationError {
            field: Field::PositiveDecimal,
            reason: Reason::OutOfRange
        }))
    );
}

#[test]
fn conversion_rejects_a_sum_that_overflows() {
    let mut shipment = three_leg_shipment();
    let huge = WrappedDecimal(Decimal {
        mantissa: 79_228_162_514_264_337_593_543_950_335,
        scale: 0,
    });
    shipment.tces.0[0].transport_activity = huge;
    shipment.tces.0[2].transport_activity = huge;
    assert_eq!(
        to_pcf(shipment, "test", "urn:test", None),
        Err(PcfError::Validation(ValidationError {
            field: Field::Decimal,
            reason: Reason::OutOfRange
        }))
    );
}

#[test]
fn assembly_uses_the_identifier_and_the_time_it_is_given() {
    let id = PfId::parse("52b87062-1506-455c-b521-5212212959a8").unwrap();
    let now = Timestamp::new(1_654_018_260, 5);
    let pfc = assemble_pcf(rail_toc(), "test", "urn:test", None, id, now).unwrap();
    assert_eq!(pfc.id, id);
    assert_eq!(pfc.created, now);
    assert_eq!(pfc.pcf.reference_period_start, now);
    assert_eq!(
        pfc.pcf.reference_period_end,
        Timestamp::new(1_654_018_260 + 31_449_600, 5)
    );
}

#[test]
fn assembly_rejects_an_identifier_of_another_version() {
    let id = PfId(0x02f09a3f_1624_3b1d_8409_44eff7708208);
    assert_eq!(
        assemble_pcf(rail_toc(), "test", "urn:test", None, id, Timestamp::new(0, 0)),
        Err(PcfError::Validation(ValidationError {
            field: Field::PfId,
            reason: Reason::OutOfRange
        }))
    );
}

#[test]
fn assembly_rejects_a_period_beyond_the_range_of_time() {
    let id = PfId::new_v4();
    assert_eq!(
        assemble_pcf(rail_toc(), "test", "urn:test", None, id, Timestamp::new(i64::MAX, 0)),
        Err(PcfError::Validation(ValidationError {
            field: Field::ReferencePeriod,
            reason: Reason::OutOfRange
        }))
    );
}

#[test]
fn two_conversions_get_different_identifiers() {
    let a = to_pcf(rail_toc(), "test", "urn:test", None).unwrap();
    let b = to_pcf(rail_toc(), "test", "urn:test", None).unwrap();
    assert_ne!(a.id, b.id);
}

fn texts(sources: &[ileap_data_model::IpccCharacterizationFactorsSource]) -> Vec<String> {
    sources.iter().map(|s| s.0.clone()).collect()
}

#[test]
fn no_characterization_factors_default_to_ar5() {
    let (factor, sources) = to_char_factors(None);
    assert_eq!(factor, CharacterizationFactors::Ar5);
    assert_eq!(texts(&sources), vec!["AR5"]);
}

#[test]
fn empty_characterization_factors_default_to_ar5() {
    let (factor, sources) = to_char_factors(Some(vec![]));
    assert_eq!(factor, CharacterizationFactors::Ar5);
    assert_eq!(texts(&sources), vec!["AR5"]);
}

#[test]
fn ar6_alone_is_filed_under_ar6() {
    let (factor, sources) = to_char_factors(Some(vec![CharacterizationFactors::Ar6]));
    assert_eq!(factor, CharacterizationFactors::Ar6);
    assert_eq!(texts(&sources), vec!["AR6"]);
}

#[test]
fn ar5_among_the_factors_wins() {
    let (factor, sources) = to_char_factors(Some(vec![
        CharacterizationFactors::Ar5,
        CharacterizationFactors::Ar6,
    ]));
    assert_eq!(factor, CharacterizationFactors::Ar5);
    assert_eq!(texts(&sources), vec!["AR5", "AR6"]);

    let (factor, sources) = to_char_factors(Some(vec![
        CharacterizationFactors::Ar6,
        CharacterizationFactors::Ar5,
        CharacterizationFactors::Ar6,
    ]));
    assert_eq!(factor, CharacterizationFactors::Ar5);
    assert_eq!(texts(&sources), vec!["AR6", "AR5", "AR6"]);
}

#[test]
fn footprint_carries_the_resolved_factors() {
    let pfc = to_pcf(
        rail_toc(),
        "test",
        "urn:test",
        Some(vec![CharacterizationFactors::Ar6]),
    )
    .unwrap();
    assert_eq!(pfc.pcf.characterization_factors, CharacterizationFactors::Ar6);
    assert_eq!(
        texts(&pfc.pcf.ipcc_characterization_factors_sources.0),
        vec!["AR6"]
    );
}
