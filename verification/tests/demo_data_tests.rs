use ileap_data_model::demo_data::{
    amount_reads_back, arbitrary_option_factor, arbitrary_wrapped_decimal, arrival, capital,
    decimal_reads_back, feedstock_fits, time_reads_back,
    fitting_feedstocks, formatted_arbitrary_string, halved, journey_hours, rounded_product,
    settled_feedstocks, symbol, whole_decimal,
};
use ileap_data_model::{
    gen_rnd_demo_data, CharacterizationFactors, Decimal, DeclaredUnit, EnergyCarrier,
    EnergyCarrierType, Feedstock, FeedstockType, GlecDistance, Hoc, HubActivityUnit, HubType,
    ILeapType, Location, LowerAToZNumDash, PackagingOrTrEqType, ShipmentFootprint, Tce,
    Timestamp, Toc, TransportMode, UicCode, Validate, Wire, WrappedDecimal,
};

#[test]
fn test_gen_rnd_demo_data() {
    let footprints = gen_rnd_demo_data(10);

    for footprint in footprints.iter() {
        if let Some(extensions) = &footprint.extensions {
            for extension in extensions.iter() {
                if let ILeapType::ShipmentFootprint(ship_foot) = &extension.data {
                    for tce in ship_foot.tces.0.iter() {
                        assert!(
                            tce.toc_id.is_some() ^ tce.hoc_id.is_some(),
                            "Either tocId or hocId, but not both, must be provided."
                        );
                    }
                }
            }
        }
    }

    println!("{footprints:#?}");
}

#[test]
fn generated_shipments_are_chains_between_transport_legs() {
    for _ in 0..20 {
        for footprint in gen_rnd_demo_data(8) {
            assert_eq!(footprint.company_name.0, "SINE Foundation");
            assert_eq!(footprint.company_ids.0[0].0, "urn:sine:example");
            assert_eq!(
                footprint.pcf.characterization_factors,
                CharacterizationFactors::Ar6
            );
            let extensions = footprint.extensions.as_ref().unwrap();
            assert_eq!(extensions.len(), 1);
            match &extensions[0].data {
                ILeapType::ShipmentFootprint(shipment) => {
                    let tces = &shipment.tces.0;
                    assert!(!tces.is_empty());
                    assert!(tces.len() <= 8);
                    assert!(tces[0].toc_id.is_some());
                    assert!(tces[tces.len() - 1].toc_id.is_some());
                    for (i, tce) in tces.iter().enumerate() {
                        assert_eq!(tce.shipment_id, shipment.shipment_id);
                        let before: Vec<String> =
                            tces[..i].iter().map(|t| t.tce_id.clone()).collect();
                        assert_eq!(tce.prev_tce_ids, Some(before));
                        if i > 0 && tces[i - 1].hoc_id.is_some() {
                            assert!(tce.hoc_id.is_none());
                        }
                        if tce.hoc_id.is_some() {
                            assert_eq!(tce.transport_activity.0, Decimal::new(0, 0));
                            assert_eq!(tce.distance.get_distance(), Decimal::new(0, 0));
                        }
                    }
                    assert_eq!(footprint.pcf.declared_unit, DeclaredUnit::TonKilometer);
                    assert_eq!(shipment.validate(), Ok(()));
                }
                ILeapType::Toc(toc) => {
                    assert_eq!(footprint.pcf.declared_unit, DeclaredUnit::TonKilometer);
                    assert_eq!(footprint.pcf.unitary_product_amount.0, Decimal::new(1, 0));
                    assert_eq!(
                        footprint.pcf.p_cf_excluding_biogenic.0,
                        toc.co2e_intensity_wtw.0
                    );
                    assert_eq!(toc.validate(), Ok(()));
                }
                ILeapType::Hoc(hoc) => {
                    assert_eq!(hoc.hub_activity_unit, HubActivityUnit::Tonnes);
                    assert_eq!(footprint.pcf.declared_unit, DeclaredUnit::Kilogram);
                    assert_eq!(
                        footprint.pcf.unitary_product_amount.0,
                        Decimal::new(1000, 0)
                    );
                    assert_eq!(hoc.validate(), Ok(()));
                }
            }
            assert_eq!(footprint.validate(), Ok(()));
        }
    }
}

#[test]
fn every_leg_of_a_generated_shipment_has_the_footprint_of_its_operator() {
    let footprints = gen_rnd_demo_data(6);
    let mut toc_ids = vec![];
    let mut hoc_ids = vec![];
    for footprint in &footprints {
        match &footprint.extensions.as_ref().unwrap()[0].data {
            ILeapType::Toc(toc) => toc_ids.push(toc.toc_id.clone()),
            ILeapType::Hoc(hoc) => hoc_ids.push(hoc.hoc_id.clone()),
            ILeapType::ShipmentFootprint(_) => {}
        }
    }
    let mut kinds = vec![];
    for footprint in &footprints {
        let kind = match &footprint.extensions.as_ref().unwrap()[0].data {
            ILeapType::ShipmentFootprint(shipment) => {
                for tce in &shipment.tces.0 {
                    if let Some(id) = &tce.toc_id {
                        assert!(toc_ids.contains(id));
                    }
                    if let Some(id) = &tce.hoc_id {
                        assert!(hoc_ids.contains(id));
                    }
                }
                0
            }
            ILeapType::Toc(_) => 1,
            ILeapType::Hoc(_) => 2,
        };
        kinds.push(kind);
    }
    let mut sorted = kinds.clone();
    sorted.sort();
    assert_eq!(kinds, sorted);
}

#[test]
fn size_zero_gives_no_records() {
    assert!(gen_rnd_demo_data(0).is_empty());
}

#[test]
fn size_one_gives_shipments_of_one_transport_leg() {
    for _ in 0..10 {
        for footprint in gen_rnd_demo_data(1) {
            if let ILeapType::ShipmentFootprint(shipment) =
                &footprint.extensions.as_ref().unwrap()[0].data
            {
                assert_eq!(shipment.tces.0.len(), 1);
                assert!(shipment.tces.0[0].toc_id.is_some());
            }
        }
    }
}

#[test]
fn bytes_stand_for_letters_digits_and_the_hyphen() {
    assert_eq!(symbol(0), '-');
    assert_eq!(symbol(37), '-');
    assert_eq!(symbol(1), '0');
    assert_eq!(symbol(10), '9');
    assert_eq!(symbol(11), 'a');
    assert_eq!(symbol(36), 'z');
    assert_eq!(symbol(255), ('a' as u8 + (255 % 37 - 11)) as char);
    let all: Vec<u8> = (0..=255).collect();
    let s = LowerAToZNumDash::from_bytes(&all);
    assert_eq!(s.len(), 256);
    assert!(s
        .0
        .chars()
        .all(|c| c == '-' || c.is_ascii_digit() || c.is_ascii_lowercase()));
    assert_eq!(&s.0[..12], "-0123456789a");
}

#[test]
fn shrinking_gives_the_proper_prefixes() {
    let s = LowerAToZNumDash::from_bytes(&vec![11, 12, 13]);
    assert_eq!(s.0, "abc");
    let shrunk: Vec<String> = s.shrink().into_iter().map(|p| p.0).collect();
    assert_eq!(shrunk, vec!["", "a", "ab"]);
    assert!(LowerAToZNumDash::from_bytes(&vec![]).shrink().is_empty());
}

#[test]
fn formatted_string_starts_with_its_fixed_part() {
    let mut g = quickcheck::Gen::new(10);
    for _ in 0..20 {
        let s = formatted_arbitrary_string("shipment-", &mut g);
        assert!(s.starts_with("shipment-"));
        assert!(s["shipment-".len()..]
            .chars()
            .all(|c| c == '-' || c.is_ascii_digit() || c.is_ascii_lowercase()));
        let random = LowerAToZNumDash::arbitrary(&mut g);
        assert!(random.len() < 10);
    }
}

#[test]
fn random_factors_are_tenths_up_to_one() {
    let mut g = quickcheck::Gen::new(10);
    let allowed = [
        "0.1", "0.2", "0.3", "0.4", "0.5", "0.6", "0.7", "0.8", "0.9", "1.0",
    ];
    for _ in 0..50 {
        let factor = arbitrary_option_factor(&mut g).unwrap();
        assert!(allowed.contains(&factor.as_str()), "{factor}");
    }
}

#[test]
fn journey_hours_round_halves_to_even() {
    let hours = |km: i64| journey_hours(&Decimal::from_i64(km));
    assert_eq!(hours(0), 0);
    assert_eq!(hours(49), 0);
    assert_eq!(hours(50), 0);
    assert_eq!(hours(51), 1);
    assert_eq!(hours(150), 2);
    assert_eq!(hours(250), 2);
    assert_eq!(hours(251), 3);
    assert_eq!(hours(65535), 655);
    assert_eq!(journey_hours(&Decimal::new(14999, 2)), 1);
    assert_eq!(journey_hours(&Decimal::new(-250, 0)), -2);
    for km in 0..=u16::MAX {
        let expected = (km as f64 / 100.0).round_ties_even() as i64;
        assert_eq!(hours(km as i64), expected, "{km}");
    }
}

#[test]
fn a_journey_arrives_after_its_hours() {
    let departure = Timestamp::new(1_700_000_000, 5);
    assert_eq!(
        arrival(&departure, &Decimal::from_i64(250)),
        Timestamp::new(1_700_000_000 + 2 * 3600, 5)
    );
    assert_eq!(arrival(&departure, &Decimal::from_i64(0)), departure);
    let late = Timestamp::new(i64::MAX - 10, 0);
    assert_eq!(arrival(&late, &Decimal::from_i64(100)), late);
}

#[test]
fn feedstocks_fit_their_carriers() {
    assert!(feedstock_fits(EnergyCarrierType::Diesel, FeedstockType::Fossil));
    assert!(!feedstock_fits(EnergyCarrierType::Diesel, FeedstockType::NaturalGas));
    assert!(feedstock_fits(EnergyCarrierType::Hvo, FeedstockType::CookingOil));
    assert!(!feedstock_fits(EnergyCarrierType::Hvo, FeedstockType::Grid));
    assert!(feedstock_fits(EnergyCarrierType::Hydrogen, FeedstockType::CookingOil));
    assert!(!feedstock_fits(EnergyCarrierType::Hydrogen, FeedstockType::Fossil));
    assert!(feedstock_fits(EnergyCarrierType::Electric, FeedstockType::Grid));
    assert!(feedstock_fits(
        EnergyCarrierType::Electric,
        FeedstockType::RenewableElectricity
    ));
    assert!(!feedstock_fits(EnergyCarrierType::Electric, FeedstockType::Fossil));
    assert!(feedstock_fits(EnergyCarrierType::Methanol, FeedstockType::NaturalGas));
}

#[test]
fn random_records_obey_their_rules() {
    let mut g = quickcheck::Gen::new(10);
    for _ in 0..50 {
        let carrier = EnergyCarrier::arbitrary(&mut g);
        assert_eq!(carrier.validate(), Ok(()));
        if let Some(feedstocks) = &carrier.feedstocks {
            for f in feedstocks {
                assert!(feedstock_fits(carrier.energy_carrier, f.feedstock));
            }
        }
        let toc = Toc::arbitrary(&mut g);
        assert_eq!(toc.validate(), Ok(()));
        assert!(toc.toc_id.starts_with("toc-"));
        if toc.mode != TransportMode::Air {
            assert!(toc.air_shipping_option.is_none());
            assert!(toc.flight_length.is_none());
        }
        let hoc = Hoc::arbitrary(&mut g);
        assert_eq!(hoc.validate(), Ok(()));
        assert!(hoc.hoc_id.starts_with("hoc-"));
        let tce = Tce::arbitrary(&mut g);
        assert!(tce.toc_id.is_some() ^ tce.hoc_id.is_some());
        assert_eq!(tce.prev_tce_ids, Some(vec![]));
        assert_eq!(
            Some(tce.transport_activity.0),
            tce.mass.0.checked_mul(&tce.distance.get_distance())
        );
        let distance = GlecDistance::arbitrary(&mut g);
        assert_eq!(distance.validate(), Ok(()));
        assert!(distance.get_distance().mantissa < 32768);
    }
}

#[test]
fn demonstration_data_of_any_size_above_zero_has_an_operation_category() {
    for size in [1u8, 2, 5, 255] {
        let footprints = gen_rnd_demo_data(size);
        let kinds: Vec<u8> = footprints
            .iter()
            .map(|pf| match &pf.extensions.as_ref().unwrap()[0].data {
                ILeapType::ShipmentFootprint(_) => 0,
                ILeapType::Toc(_) => 1,
                ILeapType::Hoc(_) => 2,
            })
            .collect();
        assert!(kinds.contains(&1));
        assert!(kinds.iter().filter(|k| **k == 0).count() <= size as usize);
        for pf in &footprints {
            if let ILeapType::ShipmentFootprint(shipment) = &pf.extensions.as_ref().unwrap()[0].data
            {
                assert!(shipment.tces.0.len() <= size as usize);
            }
        }
        if size > 5 {
            break;
        }
    }
}

#[test]
fn whole_decimals_are_the_drawn_numbers() {
    assert_eq!(whole_decimal(0), WrappedDecimal(Decimal::new(0, 0)));
    assert_eq!(whole_decimal(1), WrappedDecimal(Decimal::new(1, 0)));
    assert_eq!(whole_decimal(65535), WrappedDecimal(Decimal::new(65535, 0)));
    assert_eq!(halved(0), WrappedDecimal(Decimal::new(0, 0)));
    assert_eq!(halved(1), WrappedDecimal(Decimal::new(0, 0)));
    assert_eq!(halved(65535), WrappedDecimal(Decimal::new(32767, 0)));
    let mut g = quickcheck::Gen::new(10);
    for _ in 0..50 {
        let d = arbitrary_wrapped_decimal(&mut g).0;
        assert_eq!(d.scale, 0);
        assert!((0..=65535).contains(&d.mantissa));
    }
}

#[test]
fn drawn_shares_are_tenths_of_the_whole() {
    let f = Feedstock::with_drawn_share(FeedstockType::Grid, None);
    assert_eq!(
        f,
        Feedstock {
            feedstock: FeedstockType::Grid,
            feedstock_share: None,
            region_provenance: None
        }
    );
    for (drawn, tenths) in [(0u16, 0i64), (65535, 10), (32767, 5), (3276, 0), (3277, 1), (9830, 1), (9831, 2)] {
        let f = Feedstock::with_drawn_share(FeedstockType::Fossil, Some(whole_decimal(drawn)));
        assert_eq!(f.feedstock, FeedstockType::Fossil);
        let share = f.feedstock_share.unwrap().0;
        assert_eq!(
            share,
            Decimal::new(drawn as i64, 0)
                .checked_div(&Decimal::new(65535, 0))
                .unwrap()
                .round_dp(1)
                .unwrap()
        );
        assert!(share.scale <= 1, "{drawn}");
        let in_tenths = if share.scale == 1 {
            share.mantissa as i64
        } else {
            share.mantissa as i64 * 10
        };
        assert_eq!(in_tenths, tenths, "{drawn}");
    }
}

fn stock(kind: FeedstockType, tenths: Option<i64>, region: Option<&str>) -> Feedstock {
    Feedstock {
        feedstock: kind,
        feedstock_share: tenths.map(|t| WrappedDecimal(Decimal::new(t, 1))),
        region_provenance: region.map(|r| r.to_string()),
    }
}

#[test]
fn fitting_feedstocks_are_kept_in_their_order() {
    let drawn = vec![
        stock(FeedstockType::Grid, Some(3), None),
        stock(FeedstockType::Fossil, Some(4), Some("Europe")),
        stock(FeedstockType::CookingOil, None, None),
        stock(FeedstockType::NaturalGas, Some(2), None),
    ];
    assert_eq!(
        fitting_feedstocks(EnergyCarrierType::Hvo, &drawn, true),
        vec![drawn[1].clone(), drawn[2].clone(), drawn[3].clone()]
    );
    assert_eq!(
        fitting_feedstocks(EnergyCarrierType::Hvo, &drawn, false),
        vec![
            stock(FeedstockType::Fossil, None, Some("Europe")),
            stock(FeedstockType::CookingOil, None, None),
            stock(FeedstockType::NaturalGas, None, None),
        ]
    );
    assert_eq!(
        fitting_feedstocks(EnergyCarrierType::Electric, &drawn, true),
        vec![drawn[0].clone()]
    );
    assert_eq!(
        fitting_feedstocks(EnergyCarrierType::Diesel, &drawn, true),
        vec![drawn[1].clone()]
    );
    assert_eq!(
        fitting_feedstocks(EnergyCarrierType::Hydrogen, &drawn, true),
        vec![drawn[2].clone()]
    );
    assert!(fitting_feedstocks(EnergyCarrierType::Diesel, &vec![], true).is_empty());
}

#[test]
fn shares_are_kept_where_they_add_up_to_one_at_most() {
    let within = vec![
        stock(FeedstockType::Fossil, Some(4), None),
        stock(FeedstockType::Grid, Some(6), None),
    ];
    assert_eq!(
        settled_feedstocks(EnergyCarrierType::Diesel, &within),
        vec![within[0].clone()]
    );
    let beyond = vec![
        stock(FeedstockType::Fossil, Some(4), None),
        stock(FeedstockType::Grid, Some(7), None),
    ];
    assert_eq!(
        settled_feedstocks(EnergyCarrierType::Diesel, &beyond),
        vec![stock(FeedstockType::Fossil, None, None)]
    );
}

fn carrier_with(feedstocks: Option<Vec<Feedstock>>) -> EnergyCarrier {
    EnergyCarrier {
        energy_carrier: EnergyCarrierType::Diesel,
        feedstocks,
        energy_consumption: None,
        energy_consumption_unit: None,
        emission_factor_wtw: WrappedDecimal(Decimal::new(1, 0)),
        emission_factor_ttw: WrappedDecimal(Decimal::new(1, 0)),
        relative_share: WrappedDecimal(Decimal::new(5, 1)),
    }
}

#[test]
fn a_carrier_that_breaks_a_rule_loses_its_feedstocks() {
    let valid = carrier_with(Some(vec![stock(FeedstockType::Fossil, Some(10), None)]));
    assert_eq!(
        EnergyCarrier::without_invalid_feedstocks(valid.clone()),
        valid
    );
    let invalid = carrier_with(Some(vec![stock(FeedstockType::Fossil, Some(11), None)]));
    assert_eq!(
        EnergyCarrier::without_invalid_feedstocks(invalid),
        carrier_with(None)
    );
    let none = carrier_with(None);
    assert_eq!(EnergyCarrier::without_invalid_feedstocks(none.clone()), none);
}

#[test]
fn drawn_bytes_stand_for_capitals_and_low_characters() {
    assert_eq!(capital(0), 'A');
    assert_eq!(capital(25), 'Z');
    assert_eq!(capital(26), 'A');
    assert_eq!(capital(255), (b'A' + 255 % 26) as char);
    assert_eq!(UicCode::from_draws(0, 8).0, "\u{1}\u{9}");
    assert_eq!(UicCode::from_draws(9, 255).0, "\u{1}\u{4}");
}

#[test]
fn random_places_have_codes_of_their_classes() {
    let mut g = quickcheck::Gen::new(10);
    for _ in 0..50 {
        let place = Location::arbitrary(&mut g);
        if let Some(code) = &place.iata {
            assert_eq!(code.0.len(), 3);
            assert!(code.0.chars().all(|c| c.is_ascii_uppercase()));
        }
        if let Some(code) = &place.locode {
            assert_eq!(code.0.len(), 5);
            assert!(code.0.chars().all(|c| c.is_ascii_uppercase()));
        }
        if let Some(code) = &place.uic {
            assert_eq!(code.0.chars().count(), 2);
            assert!(code.0.chars().all(|c| (1..=9).contains(&(c as u32))));
        }
        for d in [place.lat, place.lng].into_iter().flatten() {
            assert_eq!(d.0.scale, 0);
            assert!((0..=65535).contains(&d.0.mantissa));
        }
        let kind = PackagingOrTrEqType::arbitrary(&mut g);
        assert!(matches!(
            kind,
            PackagingOrTrEqType::Box | PackagingOrTrEqType::Pallet | PackagingOrTrEqType::Container
        ));
        let distance = GlecDistance::arbitrary(&mut g);
        assert!(
            distance == GlecDistance::new_actual(WrappedDecimal(distance.get_distance()))
                || distance == GlecDistance::new_gcd(WrappedDecimal(distance.get_distance()))
                || distance == GlecDistance::new_sfd(WrappedDecimal(distance.get_distance()))
        );
        assert_eq!(distance.get_distance().scale, 0);
    }
}

fn is_tagged(text: &str, prefix: &str) -> bool {
    text.starts_with(prefix)
        && text[prefix.len()..]
            .chars()
            .all(|c| c.is_ascii_lowercase() || c.is_ascii_digit() || c == '-')
}

#[test]
fn random_hubs_have_the_modes_of_their_kind() {
    let mut g = quickcheck::Gen::new(10);
    let mut kinds = vec![];
    for _ in 0..300 {
        let hoc = Hoc::arbitrary(&mut g);
        assert!(is_tagged(&hoc.hoc_id, "hoc-"), "{}", hoc.hoc_id);
        match hoc.hub_type {
            HubType::Warehouse => {
                assert_eq!(hoc.inbound_transport_mode, Some(TransportMode::Road));
                assert_eq!(hoc.outbound_transport_mode, Some(TransportMode::Road));
            }
            HubType::Transshipment | HubType::StorageAndTransshipment => {
                assert!(hoc.inbound_transport_mode.is_some());
                assert!(hoc.outbound_transport_mode.is_some());
                assert_ne!(hoc.inbound_transport_mode, hoc.outbound_transport_mode);
            }
            HubType::LiquidBulkTerminal => {
                assert!(hoc.inbound_transport_mode.is_some());
                assert!(hoc.outbound_transport_mode.is_some());
            }
            HubType::MaritimeContainerTerminal => {}
        }
        assert!((1..=5).contains(&hoc.energy_carriers.0.len()));
        assert!(hoc.description.is_none());
        assert!(hoc.hub_location.is_none());
        assert!(hoc.packaging_or_tr_eq_amount.is_none());
        if !kinds.contains(&hoc.hub_type) {
            kinds.push(hoc.hub_type);
        }
    }
    assert_eq!(kinds.len(), 5);
}

#[test]
fn random_transports_have_factors_of_tenths() {
    let mut g = quickcheck::Gen::new(10);
    let allowed = [
        "0.1", "0.2", "0.3", "0.4", "0.5", "0.6", "0.7", "0.8", "0.9", "1.0",
    ];
    for _ in 0..100 {
        let toc = Toc::arbitrary(&mut g);
        assert!(is_tagged(&toc.toc_id, "toc-"), "{}", toc.toc_id);
        assert!(allowed.contains(&toc.load_factor.as_deref().unwrap()));
        assert!(allowed.contains(&toc.empty_distance_factor.as_deref().unwrap()));
        assert!((1..=5).contains(&toc.energy_carriers.0.len()));
        assert!(toc.description.is_none());
    }
}

#[test]
fn random_legs_carry_their_tags() {
    let mut g = quickcheck::Gen::new(10);
    for _ in 0..200 {
        let tce = Tce::arbitrary(&mut g);
        assert!(is_tagged(&tce.tce_id, "tce-"), "{}", tce.tce_id);
        assert!(is_tagged(&tce.shipment_id, "shipment-"));
        assert!(is_tagged(tce.consignment_id.as_deref().unwrap(), "consignment-"));
        match (&tce.toc_id, &tce.hoc_id) {
            (Some(id), None) => assert!(is_tagged(id, "toc-")),
            (None, Some(id)) => assert!(is_tagged(id, "hoc-")),
            _ => panic!("a leg has one operator"),
        }
        assert_eq!(tce.co2e_wtw.0, Decimal::new(0, 0));
        assert_eq!(tce.co2e_ttw.0, Decimal::new(0, 0));
        assert_eq!(tce.mass.0.scale, 0);
        assert!(tce.mass.0.mantissa <= 65535);
        assert_eq!(
            tce.arrival_at,
            Some(arrival(
                &tce.departure_at.unwrap(),
                &tce.distance.get_distance()
            ))
        );
        if let Some(amount) = tce.packaging_or_tr_eq_amount {
            assert_eq!(amount.0.scale, 0);
            assert!((0..=65535).contains(&amount.0.mantissa));
        }
        assert!(tce.origin.is_none() && tce.destination.is_none());
    }
}

#[test]
fn random_shipments_have_one_to_five_random_legs() {
    let mut g = quickcheck::Gen::new(10);
    for _ in 0..100 {
        let shipment = ShipmentFootprint::arbitrary(&mut g);
        assert!((1..=5).contains(&shipment.tces.0.len()));
        assert!(is_tagged(&shipment.shipment_id, "shipment-"));
        let mass: u32 = shipment.mass.parse().unwrap();
        assert!(mass <= 65535);
        assert_eq!(shipment.mass, mass.to_string());
        assert!(shipment.volume.is_none());
        for tce in &shipment.tces.0 {
            assert!(is_tagged(&tce.tce_id, "tce-"));
            assert_eq!(tce.prev_tce_ids, Some(vec![]));
        }
    }
}

#[test]
fn the_activity_of_a_generated_transport_leg_is_mass_times_distance() {
    for _ in 0..20 {
        let footprints = gen_rnd_demo_data(6);
        for footprint in &footprints {
            let ILeapType::ShipmentFootprint(shipment) =
                &footprint.extensions.as_ref().unwrap()[0].data
            else {
                continue;
            };
            for tce in &shipment.tces.0 {
                assert!(is_tagged(&tce.tce_id, "tce-"));
                if tce.toc_id.is_some() {
                    let product = tce
                        .mass
                        .0
                        .checked_mul(&tce.distance.get_distance())
                        .unwrap()
                        .round_dp(2)
                        .unwrap();
                    assert_eq!(tce.transport_activity.0, product);
                    assert_eq!(
                        tce.transport_activity,
                        rounded_product(&tce.mass.0, &tce.distance.get_distance())
                    );
                }
            }
        }
    }
}

#[test]
fn the_emissions_of_a_generated_leg_are_those_of_its_operator() {
    for _ in 0..20 {
        let footprints = gen_rnd_demo_data(6);
        let mut tocs = vec![];
        let mut hocs = vec![];
        for footprint in &footprints {
            match &footprint.extensions.as_ref().unwrap()[0].data {
                ILeapType::Toc(toc) => tocs.push(toc.clone()),
                ILeapType::Hoc(hoc) => hocs.push(hoc.clone()),
                ILeapType::ShipmentFootprint(_) => {}
            }
        }
        for footprint in &footprints {
            let ILeapType::ShipmentFootprint(shipment) =
                &footprint.extensions.as_ref().unwrap()[0].data
            else {
                continue;
            };
            for tce in &shipment.tces.0 {
                if let Some(id) = &tce.toc_id {
                    assert!(tocs.iter().any(|toc| &toc.toc_id == id
                        && tce.co2e_wtw
                            == rounded_product(&toc.co2e_intensity_wtw.0, &tce.transport_activity.0)
                        && tce.co2e_ttw
                            == rounded_product(
                                &toc.co2e_intensity_ttw.0,
                                &tce.transport_activity.0
                            )));
                }
                if let Some(id) = &tce.hoc_id {
                    assert!(hocs.iter().any(|hoc| &hoc.hoc_id == id
                        && tce.co2e_wtw == rounded_product(&hoc.co2e_intensity_wtw.0, &tce.mass.0)
                        && tce.co2e_ttw
                            == rounded_product(&hoc.co2e_intensity_ttw.0, &tce.mass.0)));
                }
            }
        }
    }
}

#[test]
fn the_rounded_product_has_two_places_at_most() {
    assert_eq!(
        rounded_product(&Decimal::new(15, 1), &Decimal::new(3, 0)).0,
        Decimal::new(45, 1)
    );
    assert_eq!(
        rounded_product(&Decimal::new(1005, 3), &Decimal::new(1, 0)).0,
        Decimal::new(100, 2)
    );
    assert_eq!(
        rounded_product(&Decimal::new(1015, 3), &Decimal::new(1, 0)).0,
        Decimal::new(102, 2)
    );
    assert_eq!(
        rounded_product(&Decimal::new(7, 0), &Decimal::new(0, 0)).0,
        Decimal::new(0, 0)
    );
}

#[test]
fn a_generator_of_size_zero_gives_empty_texts() {
    let mut g = quickcheck::Gen::new(0);
    assert_eq!(LowerAToZNumDash::arbitrary(&mut g).len(), 0);
    assert_eq!(formatted_arbitrary_string("tce-", &mut g), "tce-");
    let place = Location::arbitrary(&mut g);
    assert_eq!(place.city, "");
}

#[test]
fn random_texts_are_shorter_than_the_size_of_the_generator() {
    let mut g = quickcheck::Gen::new(4);
    let mut longest = 0;
    for _ in 0..300 {
        let text = LowerAToZNumDash::arbitrary(&mut g);
        assert!(text.len() < 4);
        longest = longest.max(text.len());
        assert!(Location::arbitrary(&mut g).city.chars().count() < 4);
    }
    assert_eq!(longest, 3);
}

#[test]
fn a_random_shipment_is_read_back_unchanged_from_its_document() {
    let mut g = quickcheck::Gen::new(10);
    for _ in 0..100 {
        let shipment = ShipmentFootprint::arbitrary(&mut g);
        assert!(shipment.texts_read_back());
        assert!(!shipment.tces.0.is_empty());
        assert_eq!(
            ShipmentFootprint::from_json(&shipment.to_json()),
            Ok(shipment.clone())
        );
        for tce in &shipment.tces.0 {
            assert!(tce.texts_read_back());
            assert_eq!(Tce::from_json(&tce.to_json()), Ok(tce.clone()));
        }
    }
}

#[test]
fn texts_of_numbers_and_times_are_read_back() {
    assert!(decimal_reads_back(&WrappedDecimal(Decimal::new(-1250, 2))));
    assert!(decimal_reads_back(&WrappedDecimal(Decimal::new(0, 0))));
    assert!(decimal_reads_back(&WrappedDecimal(Decimal::new(0, 28))));
    assert!(!decimal_reads_back(&WrappedDecimal(Decimal {
        mantissa: 1,
        scale: 29
    })));
    assert!(!decimal_reads_back(&WrappedDecimal(Decimal {
        mantissa: i128::MAX,
        scale: 0
    })));
    assert!(amount_reads_back(&None));
    assert!(amount_reads_back(&Some(ileap_data_model::PositiveDecimal(
        Decimal::new(65535, 0)
    ))));
    assert!(!amount_reads_back(&Some(ileap_data_model::PositiveDecimal(
        Decimal::new(-1, 0)
    ))));
    assert!(time_reads_back(&None));
    assert!(time_reads_back(&Some(Timestamp::new(1_700_000_000, 0))));
    assert!(time_reads_back(&Some(Timestamp::new(1_700_000_000, 123_456_789))));
    assert!(!time_reads_back(&Some(Timestamp::new(i64::MAX, 0))));
    let mut g = quickcheck::Gen::new(5);
    let mut tce = Tce::arbitrary(&mut g);
    assert!(tce.texts_read_back());
    tce.arrival_at = Some(Timestamp::new(i64::MAX, 0));
    assert!(!tce.texts_read_back());
}
