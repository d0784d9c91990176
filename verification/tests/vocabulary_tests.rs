use ileap_data_model::{
    AirShippingOption, AssuranceBoundary, AssuranceCoverage, AssuranceLevel,
    BiogenicAccountingMethodology, Certification, CharacterizationFactors, CrossSectoralStandard,
    DeclaredUnit, DeprecatedCrossSectoralStandard, EnergyCarrierType, EnergyConsumptionUnit,
    FeedstockType, FlightLength, HubActivityUnit, HubType, Incoterms, PackagingOrTrEqType,
    PfStatus, ProductOrSectorSpecificRuleOperator, TadTempControl, TemperatureControl,
    TransportActivityUnit, TransportMode, TruckLoadingSequence, UNRegionOrSubregion,
};

#[test]
fn test_transportactivityunit_deser() {
    let tests = [
        ("\"TEUkm\"", TransportActivityUnit::TEUkm),
        ("\"tkm\"", TransportActivityUnit::Tkm),
    ];

    for (input, expected) in tests {
        assert_eq!(input, serde_json::to_string(expected.as_str()).unwrap());

        let name: String = serde_json::from_str(input).unwrap();
        let deserialized = TransportActivityUnit::parse(&name).unwrap();
        assert_eq!(deserialized, expected);
    }
}

#[test]
fn test_temperaturecontrol_deser() {
    let tests = [
        ("\"ambient\"", TemperatureControl::Ambient),
        ("\"refrigerated\"", TemperatureControl::Refrigerated),
        ("\"mixed\"", TemperatureControl::Mixed),
    ];

    for (input, expected) in tests {
        assert_eq!(input, serde_json::to_string(expected.as_str()).unwrap());

        let name: String = serde_json::from_str(input).unwrap();
        let deserialized = TemperatureControl::parse(&name).unwrap();
        assert_eq!(deserialized, expected);
    }
}

#[test]
fn test_tad_tempcontrol_deser() {
    let tests = [
        ("\"ambient\"", TadTempControl::Ambient),
        ("\"refrigerated\"", TadTempControl::Refrigerated),
    ];

    for (input, expected) in tests {
        assert_eq!(input, serde_json::to_string(expected.as_str()).unwrap());

        let name: String = serde_json::from_str(input).unwrap();
        let deserialized = TadTempControl::parse(&name).unwrap();
        assert_eq!(deserialized, expected);
    }
}

#[test]
fn test_tls_deser() {
    let tests = [
        ("\"LTL\"", TruckLoadingSequence::Ltl),
        ("\"FTL\"", TruckLoadingSequence::Ftl),
    ];

    for (input, expected) in tests {
        assert_eq!(input, serde_json::to_string(expected.as_str()).unwrap());

        let name: String = serde_json::from_str(input).unwrap();
        let deserialized = TruckLoadingSequence::parse(&name).unwrap();
        assert_eq!(deserialized, expected);
    }
}

#[test]
fn test_airshippingoption_deser() {
    let tests = [
        ("\"belly freight\"", AirShippingOption::BellyFreight),
        ("\"freighter\"", AirShippingOption::Freighter),
    ];

    for (input, expected) in tests {
        assert_eq!(input, serde_json::to_string(expected.as_str()).unwrap());

        let name: String = serde_json::from_str(input).unwrap();
        let deserialized = AirShippingOption::parse(&name).unwrap();
        assert_eq!(deserialized, expected);
    }
}

#[test]
fn test_flightlength_deser() {
    let tests = [
        ("\"short-haul\"", FlightLength::ShortHaul),
        ("\"long-haul\"", FlightLength::LongHaul),
    ];

    for (input, expected) in tests {
        assert_eq!(input, serde_json::to_string(expected.as_str()).unwrap());

        let name: String = serde_json::from_str(input).unwrap();
        let deserialized = FlightLength::parse(&name).unwrap();
        assert_eq!(deserialized, expected);
    }
}

#[test]
fn test_hubtype_deser() {
    let tests = [
        ("\"Transshipment\"", HubType::Transshipment),
        ("\"StorageAndTransshipment\"", HubType::StorageAndTransshipment),
        ("\"Warehouse\"", HubType::Warehouse),
        ("\"LiquidBulkTerminal\"", HubType::LiquidBulkTerminal),
        ("\"MaritimeContainerTerminal\"", HubType::MaritimeContainerTerminal),
    ];

    for (input, expected) in tests {
        assert_eq!(input, serde_json::to_string(expected.as_str()).unwrap());

        let name: String = serde_json::from_str(input).unwrap();
        let deserialized = HubType::parse(&name).unwrap();
        assert_eq!(deserialized, expected);
    }
}

#[test]
fn test_certifications_deser() {
    let tests = [
        ("\"ISO14083:2023\"", Certification::ISO14083_2023),
        ("\"GLECv2\"", Certification::GlecV2),
        ("\"GLECv3\"", Certification::GlecV3),
        ("\"GLECv3.1\"", Certification::GlecV3_1),
    ];

    for (input, expected) in tests {
        assert_eq!(input, serde_json::to_string(expected.as_str()).unwrap());

        let name: String = serde_json::from_str(input).unwrap();
        let deserialized = Certification::parse(&name).unwrap();
        assert_eq!(deserialized, expected);
    }
}

#[test]
fn test_transportmode_deser() {
    let tests = [
        ("\"Road\"", TransportMode::Road),
        ("\"Rail\"", TransportMode::Rail),
        ("\"Air\"", TransportMode::Air),
        ("\"Sea\"", TransportMode::Sea),
        ("\"InlandWaterway\"", TransportMode::InlandWaterway),
    ];

    for (input, expected) in tests {
        assert_eq!(input, serde_json::to_string(expected.as_str()).unwrap());

        let name: String = serde_json::from_str(input).unwrap();
        let deserialized = TransportMode::parse(&name).unwrap();
        assert_eq!(deserialized, expected);
    }
}

#[test]
fn test_hubactivityunit_deser() {
    let tests = [
        ("\"TEU\"", HubActivityUnit::TEU),
        ("\"tonnes\"", HubActivityUnit::Tonnes),
    ];

    for (input, expected) in tests {
        assert_eq!(input, serde_json::to_string(expected.as_str()).unwrap());

        let name: String = serde_json::from_str(input).unwrap();
        let deserialized = HubActivityUnit::parse(&name).unwrap();
        assert_eq!(deserialized, expected);
    }
}

#[test]
fn test_energyconsumption_unit_deser() {
    let tests = [
        ("\"l\"", EnergyConsumptionUnit::L),
        ("\"kg\"", EnergyConsumptionUnit::Kg),
        ("\"kWh\"", EnergyConsumptionUnit::KWh),
        ("\"MJ\"", EnergyConsumptionUnit::MJ),
    ];

    for (input, expected) in tests {
        assert_eq!(input, serde_json::to_string(expected.as_str()).unwrap());

        let name: String = serde_json::from_str(input).unwrap();
        let deserialized = EnergyConsumptionUnit::parse(&name).unwrap();
        assert_eq!(deserialized, expected);
    }
}

#[test]
fn test_energycarriertype_deser() {
    let tests = [
        ("\"Diesel\"", EnergyCarrierType::Diesel),
        ("\"HVO\"", EnergyCarrierType::Hvo),
        ("\"Petrol\"", EnergyCarrierType::Petrol),
        ("\"CNG\"", EnergyCarrierType::Cng),
        ("\"LNG\"", EnergyCarrierType::Lng),
        ("\"LPG\"", EnergyCarrierType::Lpg),
        ("\"HFO\"", EnergyCarrierType::Hfo),
        ("\"MGO\"", EnergyCarrierType::Mgo),
        ("\"Aviation fuel\"", EnergyCarrierType::AviationFuel),
        ("\"Hydrogen\"", EnergyCarrierType::Hydrogen),
        ("\"Methanol\"", EnergyCarrierType::Methanol),
        ("\"Electric\"", EnergyCarrierType::Electric),
    ];

    for (input, expected) in tests {
        assert_eq!(input, serde_json::to_string(expected.as_str()).unwrap());

        let name: String = serde_json::from_str(input).unwrap();
        let deserialized = EnergyCarrierType::parse(&name).unwrap();
        assert_eq!(deserialized, expected);
    }
}

#[test]
fn test_packging_or_tr_eq_type_deser() {
    let tests = [
        ("\"Box\"", PackagingOrTrEqType::Box),
        ("\"Pallet\"", PackagingOrTrEqType::Pallet),
        ("\"Container-TEU\"", PackagingOrTrEqType::ContainerTEU),
        ("\"Container-FEU\"", PackagingOrTrEqType::ContainerFEU),
        ("\"Container\"", PackagingOrTrEqType::Container),
    ];

    for (input, expected) in tests {
        assert_eq!(input, serde_json::to_string(expected.as_str()).unwrap());

        let name: String = serde_json::from_str(input).unwrap();
        let deserialized = PackagingOrTrEqType::parse(&name).unwrap();
        assert_eq!(deserialized, expected);
    }
}

#[test]
fn test_transport_mode_deser() {
    let tests = vec![
        (r#""Road""#, TransportMode::Road),
        (r#""Rail""#, TransportMode::Rail),
        (r#""Air""#, TransportMode::Air),
        (r#""Sea""#, TransportMode::Sea),
        (r#""InlandWaterway""#, TransportMode::InlandWaterway),
    ];

    for (json, expected) in tests {
        let name: String = serde_json::from_str(json).unwrap();
        let mode = TransportMode::parse(&name).unwrap();
        assert_eq!(mode, expected);
    }
}

#[test]
fn test_truck_loading_sequence_deser() {
    let tests = vec![
        (r#""LTL""#, TruckLoadingSequence::Ltl),
        (r#""FTL""#, TruckLoadingSequence::Ftl),
    ];

    for (json, expected) in tests {
        let name: String = serde_json::from_str(json).unwrap();
        let truck_loading_sequence = TruckLoadingSequence::parse(&name).unwrap();
        assert_eq!(truck_loading_sequence, expected);
    }
}

#[test]
fn test_temperature_control_deser() {
    let tests = vec![
        (r#""ambient""#, TemperatureControl::Ambient),
        (r#""refrigerated""#, TemperatureControl::Refrigerated),
        (r#""mixed""#, TemperatureControl::Mixed),
    ];

    for (json, expected) in tests {
        let name: String = serde_json::from_str(json).unwrap();
        let temperature_control = TemperatureControl::parse(&name).unwrap();
        assert_eq!(temperature_control, expected);
    }
}

#[test]
fn test_energyconsumptionunit_deser() {
    let test_vectors = vec![
        ("\"l\"", EnergyConsumptionUnit::L),
        ("\"kg\"", EnergyConsumptionUnit::Kg),
        ("\"kWh\"", EnergyConsumptionUnit::KWh),
        ("\"MJ\"", EnergyConsumptionUnit::MJ),
    ];

    for (expect, input) in &test_vectors {
        assert_eq!(expect, &serde_json::to_string(input.as_str()).unwrap());
    }
}

#[test]
fn every_pf_status_is_read_back_from_its_name() {
    let all = [
        (PfStatus::Active, "Active"),
        (PfStatus::Deprecated, "Deprecated"),
    ];
    for (value, name) in all {
        assert_eq!(value.as_str(), name);
        assert_eq!(PfStatus::parse(name), Some(value));
    }
    assert_eq!(PfStatus::parse(""), None);
    assert_eq!(PfStatus::parse(&format!("x{}", all[0].1)), None);
    assert_eq!(PfStatus::parse(&format!("{} ", all[0].1)), None);
}

#[test]
fn every_declared_unit_is_read_back_from_its_name() {
    let all = [
        (DeclaredUnit::Liter, "liter"),
        (DeclaredUnit::Kilogram, "kilogram"),
        (DeclaredUnit::CubicMeter, "cubic meter"),
        (DeclaredUnit::KilowattHour, "kilowatt hour"),
        (DeclaredUnit::Megajoule, "megajoule"),
        (DeclaredUnit::TonKilometer, "ton kilometer"),
        (DeclaredUnit::SquareMeter, "square meter"),
    ];
    for (value, name) in all {
        assert_eq!(value.as_str(), name);
        assert_eq!(DeclaredUnit::parse(name), Some(value));
    }
    assert_eq!(DeclaredUnit::parse(""), None);
    assert_eq!(DeclaredUnit::parse(&format!("x{}", all[0].1)), None);
    assert_eq!(DeclaredUnit::parse(&format!("{} ", all[0].1)), None);
}

#[test]
fn every_cross_sectoral_standard_is_read_back_from_its_name() {
    let all = [
        (CrossSectoralStandard::Ghgp, "GHGP Product"),
        (CrossSectoralStandard::ISO14067, "ISO14067"),
        (CrossSectoralStandard::ISO14044, "ISO14044"),
        (CrossSectoralStandard::ISO14083, "ISO14083"),
        (CrossSectoralStandard::ISO14040_44, "ISO14040-44"),
        (CrossSectoralStandard::Pef, "PEF"),
        (CrossSectoralStandard::PactMethodology, "PACT Methodology 2.0"),
        (CrossSectoralStandard::Pas2050, "PAS2050"),
    ];
    for (value, name) in all {
        assert_eq!(value.as_str(), name);
        assert_eq!(CrossSectoralStandard::parse(name), Some(value));
    }
    assert_eq!(CrossSectoralStandard::parse(""), None);
    assert_eq!(CrossSectoralStandard::parse(&format!("x{}", all[0].1)), None);
    assert_eq!(CrossSectoralStandard::parse(&format!("{} ", all[0].1)), None);
}

#[test]
fn every_deprecated_cross_sectoral_standard_is_read_back_from_its_name() {
    let all = [
        (DeprecatedCrossSectoralStandard::Ghgp, "GHG Protocol Product standard"),
        (DeprecatedCrossSectoralStandard::ISO14067, "ISO Standard 14067"),
        (DeprecatedCrossSectoralStandard::ISO14044, "ISO Standard 14044"),
    ];
    for (value, name) in all {
        assert_eq!(value.as_str(), name);
        assert_eq!(DeprecatedCrossSectoralStandard::parse(name), Some(value));
    }
    assert_eq!(DeprecatedCrossSectoralStandard::parse(""), None);
    assert_eq!(DeprecatedCrossSectoralStandard::parse(&format!("x{}", all[0].1)), None);
    assert_eq!(DeprecatedCrossSectoralStandard::parse(&format!("{} ", all[0].1)), None);
}

#[test]
fn every_characterization_factors_is_read_back_from_its_name() {
    let all = [
        (CharacterizationFactors::Ar5, "AR5"),
        (CharacterizationFactors::Ar6, "AR6"),
    ];
    for (value, name) in all {
        assert_eq!(value.as_str(), name);
        assert_eq!(CharacterizationFactors::parse(name), Some(value));
    }
    assert_eq!(CharacterizationFactors::parse(""), None);
    assert_eq!(CharacterizationFactors::parse(&format!("x{}", all[0].1)), None);
    assert_eq!(CharacterizationFactors::parse(&format!("{} ", all[0].1)), None);
}

#[test]
fn every_biogenic_accounting_methodology_is_read_back_from_its_name() {
    let all = [
        (BiogenicAccountingMethodology::Pef, "PEF"),
        (BiogenicAccountingMethodology::Iso, "ISO"),
        (BiogenicAccountingMethodology::Ghpg, "GHPG"),
        (BiogenicAccountingMethodology::Quantis, "Quantis"),
    ];
    for (value, name) in all {
        assert_eq!(value.as_str(), name);
        assert_eq!(BiogenicAccountingMethodology::parse(name), Some(value));
    }
    assert_eq!(BiogenicAccountingMethodology::parse(""), None);
    assert_eq!(BiogenicAccountingMethodology::parse(&format!("x{}", all[0].1)), None);
    assert_eq!(BiogenicAccountingMethodology::parse(&format!("{} ", all[0].1)), None);
}

#[test]
fn every_un_region_or_subregion_is_read_back_from_its_name() {
    let all = [
        (UNRegionOrSubregion::Africa, "Africa"),
        (UNRegionOrSubregion::Americas, "Americas"),
        (UNRegionOrSubregion::Asia, "Asia"),
        (UNRegionOrSubregion::Europe, "Europe"),
        (UNRegionOrSubregion::Oceania, "Oceania"),
        (UNRegionOrSubregion::AustraliaAndNewZealand, "Australia and New Zealand"),
        (UNRegionOrSubregion::CentralAsia, "Central Asia"),
        (UNRegionOrSubregion::EasternAsia, "Eastern Asia"),
        (UNRegionOrSubregion::EasternEurope, "Eastern Europe"),
        (UNRegionOrSubregion::LatinAmericaAndTheCaribbean, "Latin America and the Caribbean"),
        (UNRegionOrSubregion::Melanesia, "Melanesia"),
        (UNRegionOrSubregion::Micronesia, "Micronesia"),
        (UNRegionOrSubregion::NorthernAfrica, "Northern Africa"),
        (UNRegionOrSubregion::NorthernAmerica, "Northern America"),
        (UNRegionOrSubregion::NorthernEurope, "Northern Europe"),
        (UNRegionOrSubregion::Polynesia, "Polynesia"),
        (UNRegionOrSubregion::SouthEasternAsia, "South-eastern Asia"),
        (UNRegionOrSubregion::SouthernAsia, "Southern Asia"),
        (UNRegionOrSubregion::SouthernEurope, "Southern Europe"),
        (UNRegionOrSubregion::SubSaharanAfrica, "Sub-Saharan Africa"),
        (UNRegionOrSubregion::WesternAsia, "Western Asia"),
        (UNRegionOrSubregion::WesternEurope, "Western Europe"),
    ];
    for (value, name) in all {
        assert_eq!(value.as_str(), name);
        assert_eq!(UNRegionOrSubregion::parse(name), Some(value));
    }
    assert_eq!(UNRegionOrSubregion::parse(""), None);
    assert_eq!(UNRegionOrSubregion::parse(&format!("x{}", all[0].1)), None);
    assert_eq!(UNRegionOrSubregion::parse(&format!("{} ", all[0].1)), None);
}

#[test]
fn every_product_or_sector_specific_rule_operator_is_read_back_from_its_name() {
    let all = [
        (ProductOrSectorSpecificRuleOperator::Pef, "PEF"),
        (ProductOrSectorSpecificRuleOperator::EPDInternational, "EPD International"),
        (ProductOrSectorSpecificRuleOperator::Other, "Other"),
    ];
    for (value, name) in all {
        assert_eq!(value.as_str(), name);
        assert_eq!(ProductOrSectorSpecificRuleOperator::parse(name), Some(value));
    }
    assert_eq!(ProductOrSectorSpecificRuleOperator::parse(""), None);
    assert_eq!(ProductOrSectorSpecificRuleOperator::parse(&format!("x{}", all[0].1)), None);
    assert_eq!(ProductOrSectorSpecificRuleOperator::parse(&format!("{} ", all[0].1)), None);
}

#[test]
fn every_assurance_coverage_is_read_back_from_its_name() {
    let all = [
        (AssuranceCoverage::CorporateLevel, "corporate level"),
        (AssuranceCoverage::ProductLine, "product line"),
        (AssuranceCoverage::PcfSystem, "PCF system"),
        (AssuranceCoverage::ProductLevel, "product level"),
    ];
    for (value, name) in all {
        assert_eq!(value.as_str(), name);
        assert_eq!(AssuranceCoverage::parse(name), Some(value));
    }
    assert_eq!(AssuranceCoverage::parse(""), None);
    assert_eq!(AssuranceCoverage::parse(&format!("x{}", all[0].1)), None);
    assert_eq!(AssuranceCoverage::parse(&format!("{} ", all[0].1)), None);
}

#[test]
fn every_assurance_level_is_read_back_from_its_name() {
    let all = [
        (AssuranceLevel::Limited, "limited"),
        (AssuranceLevel::Reasonable, "reasonable"),
    ];
    for (value, name) in all {
        assert_eq!(value.as_str(), name);
        assert_eq!(AssuranceLevel::parse(name), Some(value));
    }
    assert_eq!(AssuranceLevel::parse(""), None);
    assert_eq!(AssuranceLevel::parse(&format!("x{}", all[0].1)), None);
    assert_eq!(AssuranceLevel::parse(&format!("{} ", all[0].1)), None);
}

#[test]
fn every_assurance_boundary_is_read_back_from_its_name() {
    let all = [
        (AssuranceBoundary::GateToGate, "Gate-to-Gate"),
        (AssuranceBoundary::CradleToGate, "Cradle-to-Gate"),
    ];
    for (value, name) in all {
        assert_eq!(value.as_str(), name);
        assert_eq!(AssuranceBoundary::parse(name), Some(value));
    }
    assert_eq!(AssuranceBoundary::parse(""), None);
    assert_eq!(AssuranceBoundary::parse(&format!("x{}", all[0].1)), None);
    assert_eq!(AssuranceBoundary::parse(&format!("{} ", all[0].1)), None);
}

#[test]
fn every_incoterms_is_read_back_from_its_name() {
    let all = [
        (Incoterms::Exw, "EXW"),
        (Incoterms::Fca, "FCA"),
        (Incoterms::Cpt, "CPT"),
        (Incoterms::Cip, "CIP"),
        (Incoterms::Dap, "DAP"),
        (Incoterms::Dpu, "DPU"),
        (Incoterms::Ddp, "DDP"),
        (Incoterms::Fas, "FAS"),
        (Incoterms::Fob, "FOB"),
        (Incoterms::Cfr, "CFR"),
        (Incoterms::Cif, "CIF"),
    ];
    for (value, name) in all {
        assert_eq!(value.as_str(), name);
        assert_eq!(Incoterms::parse(name), Some(value));
    }
    assert_eq!(Incoterms::parse(""), None);
    assert_eq!(Incoterms::parse(&format!("x{}", all[0].1)), None);
    assert_eq!(Incoterms::parse(&format!("{} ", all[0].1)), None);
}

#[test]
fn every_certification_is_read_back_from_its_name() {
    let all = [
        (Certification::ISO14083_2023, "ISO14083:2023"),
        (Certification::GlecV2, "GLECv2"),
        (Certification::GlecV3, "GLECv3"),
        (Certification::GlecV3_1, "GLECv3.1"),
    ];
    for (value, name) in all {
        assert_eq!(value.as_str(), name);
        assert_eq!(Certification::parse(name), Some(value));
    }
    assert_eq!(Certification::parse(""), None);
    assert_eq!(Certification::parse(&format!("x{}", all[0].1)), None);
    assert_eq!(Certification::parse(&format!("{} ", all[0].1)), None);
}

#[test]
fn every_transport_activity_unit_is_read_back_from_its_name() {
    let all = [
        (TransportActivityUnit::TEUkm, "TEUkm"),
        (TransportActivityUnit::Tkm, "tkm"),
    ];
    for (value, name) in all {
        assert_eq!(value.as_str(), name);
        assert_eq!(TransportActivityUnit::parse(name), Some(value));
    }
    assert_eq!(TransportActivityUnit::parse(""), None);
    assert_eq!(TransportActivityUnit::parse(&format!("x{}", all[0].1)), None);
    assert_eq!(TransportActivityUnit::parse(&format!("{} ", all[0].1)), None);
}

#[test]
fn every_temperature_control_is_read_back_from_its_name() {
    let all = [
        (TemperatureControl::Ambient, "ambient"),
        (TemperatureControl::Refrigerated, "refrigerated"),
        (TemperatureControl::Mixed, "mixed"),
    ];
    for (value, name) in all {
        assert_eq!(value.as_str(), name);
        assert_eq!(TemperatureControl::parse(name), Some(value));
    }
    assert_eq!(TemperatureControl::parse(""), None);
    assert_eq!(TemperatureControl::parse(&format!("x{}", all[0].1)), None);
    assert_eq!(TemperatureControl::parse(&format!("{} ", all[0].1)), None);
}

#[test]
fn every_tad_temp_control_is_read_back_from_its_name() {
    let all = [
        (TadTempControl::Ambient, "ambient"),
        (TadTempControl::Refrigerated, "refrigerated"),
    ];
    for (value, name) in all {
        assert_eq!(value.as_str(), name);
        assert_eq!(TadTempControl::parse(name), Some(value));
    }
    assert_eq!(TadTempControl::parse(""), None);
    assert_eq!(TadTempControl::parse(&format!("x{}", all[0].1)), None);
    assert_eq!(TadTempControl::parse(&format!("{} ", all[0].1)), None);
}

#[test]
fn every_truck_loading_sequence_is_read_back_from_its_name() {
    let all = [
        (TruckLoadingSequence::Ltl, "LTL"),
        (TruckLoadingSequence::Ftl, "FTL"),
    ];
    for (value, name) in all {
        assert_eq!(value.as_str(), name);
        assert_eq!(TruckLoadingSequence::parse(name), Some(value));
    }
    assert_eq!(TruckLoadingSequence::parse(""), None);
    assert_eq!(TruckLoadingSequence::parse(&format!("x{}", all[0].1)), None);
    assert_eq!(TruckLoadingSequence::parse(&format!("{} ", all[0].1)), None);
}

#[test]
fn every_air_shipping_option_is_read_back_from_its_name() {
    let all = [
        (AirShippingOption::BellyFreight, "belly freight"),
        (AirShippingOption::Freighter, "freighter"),
    ];
    for (value, name) in all {
        assert_eq!(value.as_str(), name);
        assert_eq!(AirShippingOption::parse(name), Some(value));
    }
    assert_eq!(AirShippingOption::parse(""), None);
    assert_eq!(AirShippingOption::parse(&format!("x{}", all[0].1)), None);
    assert_eq!(AirShippingOption::parse(&format!("{} ", all[0].1)), None);
}

#[test]
fn every_flight_length_is_read_back_from_its_name() {
    let all = [
        (FlightLength::ShortHaul, "short-haul"),
        (FlightLength::LongHaul, "long-haul"),
    ];
    for (value, name) in all {
        assert_eq!(value.as_str(), name);
        assert_eq!(FlightLength::parse(name), Some(value));
    }
    assert_eq!(FlightLength::parse(""), None);
    assert_eq!(FlightLength::parse(&format!("x{}", all[0].1)), None);
    assert_eq!(FlightLength::parse(&format!("{} ", all[0].1)), None);
}

#[test]
fn every_hub_activity_unit_is_read_back_from_its_name() {
    let all = [
        (HubActivityUnit::TEU, "TEU"),
        (HubActivityUnit::Tonnes, "tonnes"),
    ];
    for (value, name) in all {
        assert_eq!(value.as_str(), name);
        assert_eq!(HubActivityUnit::parse(name), Some(value));
    }
    assert_eq!(HubActivityUnit::parse(""), None);
    assert_eq!(HubActivityUnit::parse(&format!("x{}", all[0].1)), None);
    assert_eq!(HubActivityUnit::parse(&format!("{} ", all[0].1)), None);
}

#[test]
fn every_hub_type_is_read_back_from_its_name() {
    let all = [
        (HubType::Transshipment, "Transshipment"),
        (HubType::StorageAndTransshipment, "StorageAndTransshipment"),
        (HubType::Warehouse, "Warehouse"),
        (HubType::LiquidBulkTerminal, "LiquidBulkTerminal"),
        (HubType::MaritimeContainerTerminal, "MaritimeContainerTerminal"),
    ];
    for (value, name) in all {
        assert_eq!(value.as_str(), name);
        assert_eq!(HubType::parse(name), Some(value));
    }
    assert_eq!(HubType::parse(""), None);
    assert_eq!(HubType::parse(&format!("x{}", all[0].1)), None);
    assert_eq!(HubType::parse(&format!("{} ", all[0].1)), None);
}

#[test]
fn every_transport_mode_is_read_back_from_its_name() {
    let all = [
        (TransportMode::Road, "Road"),
        (TransportMode::Rail, "Rail"),
        (TransportMode::Air, "Air"),
        (TransportMode::Sea, "Sea"),
        (TransportMode::InlandWaterway, "InlandWaterway"),
    ];
    for (value, name) in all {
        assert_eq!(value.as_str(), name);
        assert_eq!(TransportMode::parse(name), Some(value));
    }
    assert_eq!(TransportMode::parse(""), None);
    assert_eq!(TransportMode::parse(&format!("x{}", all[0].1)), None);
    assert_eq!(TransportMode::parse(&format!("{} ", all[0].1)), None);
}

#[test]
fn every_packaging_or_tr_eq_type_is_read_back_from_its_name() {
    let all = [
        (PackagingOrTrEqType::Box, "Box"),
        (PackagingOrTrEqType::Pallet, "Pallet"),
        (PackagingOrTrEqType::ContainerTEU, "Container-TEU"),
        (PackagingOrTrEqType::ContainerFEU, "Container-FEU"),
        (PackagingOrTrEqType::Container, "Container"),
    ];
    for (value, name) in all {
        assert_eq!(value.as_str(), name);
        assert_eq!(PackagingOrTrEqType::parse(name), Some(value));
    }
    assert_eq!(PackagingOrTrEqType::parse(""), None);
    assert_eq!(PackagingOrTrEqType::parse(&format!("x{}", all[0].1)), None);
    assert_eq!(PackagingOrTrEqType::parse(&format!("{} ", all[0].1)), None);
}

#[test]
fn every_energy_carrier_type_is_read_back_from_its_name() {
    let all = [
        (EnergyCarrierType::Diesel, "Diesel"),
        (EnergyCarrierType::Hvo, "HVO"),
        (EnergyCarrierType::Petrol, "Petrol"),
        (EnergyCarrierType::Cng, "CNG"),
        (EnergyCarrierType::Lng, "LNG"),
        (EnergyCarrierType::Lpg, "LPG"),
        (EnergyCarrierType::Hfo, "HFO"),
        (EnergyCarrierType::Mgo, "MGO"),
        (EnergyCarrierType::AviationFuel, "Aviation fuel"),
        (EnergyCarrierType::Hydrogen, "Hydrogen"),
        (EnergyCarrierType::Methanol, "Methanol"),
        (EnergyCarrierType::Electric, "Electric"),
    ];
    for (value, name) in all {
        assert_eq!(value.as_str(), name);
        assert_eq!(EnergyCarrierType::parse(name), Some(value));
    }
    assert_eq!(EnergyCarrierType::parse(""), None);
    assert_eq!(EnergyCarrierType::parse(&format!("x{}", all[0].1)), None);
    assert_eq!(EnergyCarrierType::parse(&format!("{} ", all[0].1)), None);
}

#[test]
fn every_energy_consumption_unit_is_read_back_from_its_name() {
    let all = [
        (EnergyConsumptionUnit::L, "l"),
        (EnergyConsumptionUnit::Kg, "kg"),
        (EnergyConsumptionUnit::KWh, "kWh"),
        (EnergyConsumptionUnit::MJ, "MJ"),
    ];
    for (value, name) in all {
        assert_eq!(value.as_str(), name);
        assert_eq!(EnergyConsumptionUnit::parse(name), Some(value));
    }
    assert_eq!(EnergyConsumptionUnit::parse(""), None);
    assert_eq!(EnergyConsumptionUnit::parse(&format!("x{}", all[0].1)), None);
    assert_eq!(EnergyConsumptionUnit::parse(&format!("{} ", all[0].1)), None);
}

#[test]
fn every_feedstock_type_is_read_back_from_its_name() {
    let all = [
        (FeedstockType::Fossil, "Fossil"),
        (FeedstockType::NaturalGas, "Natural gas"),
        (FeedstockType::Grid, "Grid"),
        (FeedstockType::RenewableElectricity, "Renewable electricity"),
        (FeedstockType::CookingOil, "Cooking oil"),
    ];
    for (value, name) in all {
        assert_eq!(value.as_str(), name);
        assert_eq!(FeedstockType::parse(name), Some(value));
    }
    assert_eq!(FeedstockType::parse(""), None);
    assert_eq!(FeedstockType::parse(&format!("x{}", all[0].1)), None);
    assert_eq!(FeedstockType::parse(&format!("{} ", all[0].1)), None);
}
