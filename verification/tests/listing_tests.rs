use ileap_data_model::api::{get_tad, TadFilter, TadListing};
use ileap_data_model::flatten::{flatten, flatten_each};
use ileap_data_model::{
    get_footprints, get_list, get_pcf, to_pcf, Decimal, EnergyCarrier, EnergyCarrierType,
    ErrorBody, Feedstock, FeedstockType, Filter, GeographicScope, GlecDistance, Host, ILeapType,
    Json, Location, NonEmptyVec, PfId, ProductFootprint, Tad, Timestamp, Toc,
    TransportActivityUnit, TransportMode, Urn, Wire, WrappedDecimal, ISO3166CC,
};

const EXAMPLE_HOST: &str = "api.pathfinder.sine.dev";

fn carrier(feedstock: Option<FeedstockType>) -> EnergyCarrier {
    EnergyCarrier {
        energy_carrier: EnergyCarrierType::Hvo,
        feedstocks: feedstock.map(|feedstock| {
            vec![Feedstock {
                feedstock,
                feedstock_share: None,
                region_provenance: None,
            }]
        }),
        energy_consumption: None,
        energy_consumption_unit: None,
        emission_factor_wtw: WrappedDecimal(Decimal::new(1, 0)),
        emission_factor_ttw: WrappedDecimal(Decimal::new(1, 0)),
        relative_share: WrappedDecimal(Decimal::new(1, 0)),
    }
}

fn footprint(n: usize) -> ProductFootprint<ILeapType> {
    let toc = Toc {
        toc_id: format!("toc-{n}"),
        certifications: None,
        description: None,
        mode: TransportMode::Road,
        load_factor: None,
        empty_distance_factor: None,
        temperature_control: None,
        truck_loading_sequence: None,
        air_shipping_option: None,
        flight_length: None,
        energy_carriers: NonEmptyVec::new(vec![carrier(None)]).unwrap(),
        co2e_intensity_wtw: WrappedDecimal(Decimal::new(1, 0)),
        co2e_intensity_ttw: WrappedDecimal(Decimal::new(1, 0)),
        transport_activity_unit: TransportActivityUnit::Tkm,
    };
    let mut pf = to_pcf(ILeapType::Toc(toc), "test", "urn:test", None).unwrap();
    pf.created = Timestamp::parse("2022-05-31T17:31:00Z").unwrap();
    pf.updated = None;
    pf.pcf.geographic_scope = Some(GeographicScope::Country(ISO3166CC("DE".to_string())));
    pf.product_ids.0.push(Urn(format!("urn:gtin:{n}")));
    pf
}

/// Thirteen footprints, of which the third is the only one from France, the
/// only one that was updated, and the only one of its product.
fn pcf_demo_data() -> Vec<ProductFootprint<ILeapType>> {
    let mut data: Vec<_> = (0..13).map(footprint).collect();
    data[2].pcf.geographic_scope = Some(GeographicScope::Country(ISO3166CC("FR".to_string())));
    data[2].updated = Some(Timestamp::parse("2023-06-27T12:12:03Z").unwrap());
    data[2]
        .product_ids
        .0
        .push(Urn("urn:gtin:4712345060507".to_string()));
    data
}

fn listed(
    limit: Option<usize>,
    filter: Option<&str>,
) -> Result<ileap_data_model::PfListing, ErrorBody> {
    get_footprints(
        pcf_demo_data_once(),
        Some("hello"),
        limit,
        Filter(filter),
        Host(Some(EXAMPLE_HOST)),
    )
}

fn pcf_demo_data_once() -> Vec<ProductFootprint<ILeapType>> {
    static DATA: std::sync::OnceLock<Vec<ProductFootprint<ILeapType>>> =
        std::sync::OnceLock::new();
    DATA.get_or_init(pcf_demo_data).clone()
}

#[test]
fn get_list_test() {
    let listing = listed(None, None).unwrap();
    assert_eq!(listing.data, pcf_demo_data_once());
    assert_eq!(
        get_footprints(
            pcf_demo_data_once(),
            None,
            None,
            Filter(None),
            Host(Some(EXAMPLE_HOST))
        ),
        Err(ErrorBody::bad_request())
    );
}

#[test]
fn get_list_with_filter_eq_test() {
    let listing = listed(None, Some("pcf/geographyCountry eq 'FR'")).unwrap();
    assert_eq!(listing.data.len(), 1);
}

#[test]
fn get_list_with_filter_lt_test() {
    let listing = listed(None, Some("updated lt '2023-06-27T13:00:00.000Z'")).unwrap();
    assert_eq!(listing.data.len(), 1);
}

#[test]
fn get_list_with_filter_eq_and_lt_test() {
    let listing = listed(
        None,
        Some("(pcf/geographyCountry eq 'FR') and (updated lt '2023-06-27T12:12:04.000Z')"),
    )
    .unwrap();
    assert_eq!(listing.data.len(), 1);
}

#[test]
fn get_list_with_filter_any_test() {
    let listing = listed(
        None,
        Some("productIds/any(productId:(productId eq 'urn:gtin:4712345060507'))"),
    )
    .unwrap();
    assert_eq!(listing.data.len(), 1);
    let listing = listed(
        None,
        Some("productIds/any(productId:(productId eq 'urn:gtin:12345'))"),
    )
    .unwrap();
    assert_eq!(listing.data.len(), 0);
}

#[test]
fn get_list_with_limit_test() {
    let expected_next_link1 = "/2/footprints?offset=7&limit=7";
    let first = listed(Some(7), None).unwrap();
    assert_eq!(
        first.link,
        Some(format!(
            "<https://api.pathfinder.sine.dev{expected_next_link1}>; rel=\"next\""
        ))
    );
    assert_eq!(first.data.len(), 7);

    let second = get_list(
        pcf_demo_data_once(),
        Some("hello"),
        7,
        7,
        Filter(None),
        Host(Some(EXAMPLE_HOST)),
    )
    .unwrap();
    assert_eq!(second.link, None);
    assert_eq!(second.data, pcf_demo_data_once()[7..13].to_vec());
}

#[test]
fn get_pcf_test() {
    let data = pcf_demo_data_once();
    for pf in data.iter() {
        assert_eq!(get_pcf(data.clone(), pf.id, Some("hello")), Ok(pf.clone()));
    }
    assert_eq!(
        get_pcf(data.clone(), data[2].id, None),
        Err(ErrorBody::bad_request())
    );
    assert!(PfId::parse("abc").is_err());
    let unknown = PfId::parse("16d8e365-698f-4694-bcad-a56e06a45afd").unwrap();
    assert_eq!(
        get_pcf(data.clone(), unknown, Some("hello")),
        Err(ErrorBody::bad_request())
    );
}

fn place(city: &str) -> Location {
    Location {
        street: None,
        zip: None,
        city: city.to_string(),
        country: ISO3166CC("DE".to_string()),
        iata: None,
        locode: None,
        uic: None,
        lat: None,
        lng: None,
    }
}

fn tad(n: usize, mode: TransportMode, feedstock: Option<FeedstockType>) -> Tad {
    Tad {
        activity_id: n.to_string(),
        consignment_ids: vec![format!("Consignment-{n}")],
        distance: GlecDistance::new_actual(WrappedDecimal(Decimal::new(100, 0))),
        mass: None,
        load_factor: None,
        empty_distance_factor: None,
        origin: place("Bremen"),
        destination: place("Hamburg"),
        departure_at: Timestamp::new(1_700_000_000, 0),
        arrival_at: Timestamp::new(1_700_003_600, 0),
        mode,
        packaging_or_tr_eq_type: None,
        packaging_or_tr_eq_amount: Some(n),
        energy_carriers: Some(NonEmptyVec::new(vec![carrier(feedstock)]).unwrap()),
        temperature_control: None,
    }
}

/// Twelve transport activities with the identifiers 1 to 12: the first
/// three run on fossil fuel, the tenth on cooking oil; the second and the
/// sixth go by road, the others by rail.
fn tad_demo_data() -> Vec<Tad> {
    (1..=12)
        .map(|n| {
            let mode = if n == 2 || n == 6 {
                TransportMode::Road
            } else {
                TransportMode::Rail
            };
            let feedstock = if n <= 3 {
                Some(FeedstockType::Fossil)
            } else if n == 10 {
                Some(FeedstockType::CookingOil)
            } else {
                None
            };
            tad(n, mode, feedstock)
        })
        .collect()
}

fn list_tad(
    authorized: bool,
    limit: Option<usize>,
    offset: Option<usize>,
    filter: Option<&[(&str, &str)]>,
) -> Result<TadListing, ErrorBody> {
    let filter: Option<TadFilter> = filter.map(|f| {
        f.iter()
            .map(|(name, value)| (name.to_string(), vec![value.to_string()]))
            .collect()
    });
    ileap_data_model::flatten::list_tad(
        tad_demo_data(),
        authorized,
        limit,
        offset,
        filter,
        Host(Some(EXAMPLE_HOST)),
    )
}

#[test]
fn transport_activities_are_flattened_from_their_documents() {
    let data = tad_demo_data();
    let records = flatten_each(&data);
    assert_eq!(records.len(), data.len());
    for (tad, record) in data.iter().zip(&records) {
        let Json::Object(members) = tad.to_json() else {
            panic!("a transport activity is written as an object");
        };
        assert_eq!(record, &flatten(&members));
        assert!(record.contains(&("activityId".to_string(), tad.activity_id.clone())));
        assert!(record.contains(&("origin.city".to_string(), "bremen".to_string())));
        assert!(record.contains(&(
            "packagingOrTrEqAmount".to_string(),
            tad.activity_id.clone()
        )));
        assert!(record.iter().all(|m| !m.0.starts_with("consignmentIds")));
    }
    assert!(records[9].contains(&(
        "energyCarriers[0].feedstocks[0].feedstock".to_string(),
        "cooking oil".to_string()
    )));
    assert_eq!(
        get_tad(
            data.clone(),
            &records,
            true,
            Some(3),
            Some(1),
            None,
            Host(Some(EXAMPLE_HOST))
        ),
        ileap_data_model::flatten::list_tad(
            data,
            true,
            Some(3),
            Some(1),
            None,
            Host(Some(EXAMPLE_HOST))
        )
    );
}

#[test]
fn get_tad_test() {
    assert_eq!(
        list_tad(true, Some(100), None, None).unwrap().data,
        tad_demo_data()
    );
    assert_eq!(
        list_tad(true, None, None, None).unwrap().data,
        tad_demo_data()[..10].to_vec()
    );
    assert_eq!(
        list_tad(false, None, None, None),
        Err(ErrorBody::access_denied())
    );
}

#[test]
fn get_tad_with_limit_test() {
    assert_eq!(
        list_tad(true, Some(2), None, None).unwrap().data,
        tad_demo_data()[..2].to_vec()
    );
    assert_eq!(
        list_tad(true, Some(2), Some(2), None).unwrap().data,
        tad_demo_data()[2..4].to_vec()
    );
}

#[test]
fn get_tad_with_filter_test() {
    assert_eq!(
        list_tad(true, None, None, Some(&[("activityId", "4")]))
            .unwrap()
            .data,
        vec![tad_demo_data()
            .into_iter()
            .find(|tad| tad.activity_id == "4")
            .unwrap()]
    );
    assert_eq!(
        list_tad(true, None, None, Some(&[("feedstock", "Cooking oil")]))
            .unwrap()
            .data,
        tad_demo_data()[9..10].to_vec()
    );
    assert_eq!(
        list_tad(
            true,
            None,
            None,
            Some(&[("activityId", "4"), ("mode", "road")])
        )
        .unwrap()
        .data,
        tad_demo_data()
            .into_iter()
            .filter(|tad| tad.activity_id == "4" || tad.mode == TransportMode::Road)
            .collect::<Vec<_>>()
    );
}

#[test]
fn get_tad_with_limit_and_filter_test() {
    assert_eq!(
        list_tad(true, Some(3), None, Some(&[("feedstock", "Fossil")]))
            .unwrap()
            .data,
        tad_demo_data()[..3].to_vec()
    );
}
