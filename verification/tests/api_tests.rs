use ileap_data_model::api::{
    check_token_request, find_footprint, footprint_with_id, has_schema, next_link, page,
    page_of_listing, with_schemas,
    DEMO_GLOBAL_PASSWORD, DEMO_GLOBAL_USERNAME, DEMO_LSP_USERNAME, DEMO_SHIPPER_USERNAME,
    HOC_SCHEMA, RANDOM_DATA_USERNAME, SHIPMENT_SCHEMA, TOC_SCHEMA,
};
use ileap_data_model::text::{has_prefix, number_text};
use ileap_data_model::{
    filtered_by_auth, gen_rnd_demo_data, ErrorBody, Host, ILeapType, OAuth2ErrorMessage, Page,
    PfId, ProductFootprint,
};

fn demo_data() -> Vec<ProductFootprint<ILeapType>> {
    loop {
        let data = gen_rnd_demo_data(6);
        let kinds: Vec<u8> = data
            .iter()
            .map(|pf| match &pf.extensions.as_ref().unwrap()[0].data {
                ILeapType::ShipmentFootprint(_) => 0,
                ILeapType::Toc(_) => 1,
                ILeapType::Hoc(_) => 2,
            })
            .collect();
        if kinds.contains(&0) && kinds.contains(&1) && kinds.contains(&2) {
            return data;
        }
    }
}

fn schema_of(pf: &ProductFootprint<ILeapType>) -> String {
    pf.extensions.as_ref().unwrap()[0].data_schema.clone()
}

#[test]
fn pages_of_a_listing() {
    assert_eq!(
        page(20, 0, 7),
        Some(Page {
            start: 0,
            end: 7,
            limit: 7,
            next_offset: Some(7)
        })
    );
    assert_eq!(
        page(20, 14, 7),
        Some(Page {
            start: 14,
            end: 20,
            limit: 6,
            next_offset: None
        })
    );
    assert_eq!(
        page(20, 13, 7),
        Some(Page {
            start: 13,
            end: 20,
            limit: 7,
            next_offset: None
        })
    );
    assert_eq!(
        page(20, 20, 7),
        Some(Page {
            start: 20,
            end: 20,
            limit: 0,
            next_offset: None
        })
    );
    assert_eq!(page(20, 21, 7), None);
    assert_eq!(
        page(20, 0, usize::MAX),
        Some(Page {
            start: 0,
            end: 20,
            limit: 20,
            next_offset: None
        })
    );
    assert_eq!(
        page(usize::MAX, usize::MAX - 1, usize::MAX),
        Some(Page {
            start: usize::MAX - 1,
            end: usize::MAX,
            limit: 1,
            next_offset: None
        })
    );
    assert_eq!(
        page(5, 2, 0),
        Some(Page {
            start: 2,
            end: 2,
            limit: 0,
            next_offset: Some(2)
        })
    );
}

#[test]
fn link_to_the_next_page() {
    assert_eq!(
        next_link(
            &Host(Some("api.pathfinder.sine.dev")),
            "/2/footprints",
            7,
            7
        ),
        "<https://api.pathfinder.sine.dev/2/footprints?offset=7&limit=7>; rel=\"next\""
    );
    assert_eq!(
        next_link(&Host(Some("localhost:8000")), "/2/ileap/tad", 10, 5),
        "<http://localhost:8000/2/ileap/tad?offset=10&limit=5>; rel=\"next\""
    );
    assert_eq!(
        next_link(&Host(None), "/2/footprints", 0, 1234567890),
        "</2/footprints?offset=0&limit=1234567890>; rel=\"next\""
    );
}

#[test]
fn origin_of_a_host() {
    assert_eq!(Host(Some("127.0.0.1:8000")).origin(), "http://127.0.0.1:8000");
    assert_eq!(Host(Some("localhost:3000")).origin(), "http://localhost:3000");
    assert_eq!(Host(Some("localhost")).origin(), "https://localhost");
    assert_eq!(Host(Some("127.0.0.1")).origin(), "https://127.0.0.1");
    assert_eq!(Host(Some("example.com")).origin(), "https://example.com");
    assert_eq!(Host(Some("")).origin(), "https://");
    assert_eq!(Host(None).origin(), "");
}

#[test]
fn numbers_are_written_in_decimal_digits() {
    for n in [0usize, 1, 9, 10, 11, 99, 100, 101, 1234567890, usize::MAX] {
        assert_eq!(number_text(n), n.to_string());
    }
}

#[test]
fn prefixes_of_a_text() {
    assert!(has_prefix("localhost:80", "localhost:"));
    assert!(has_prefix("localhost:", "localhost:"));
    assert!(!has_prefix("localhost", "localhost:"));
    assert!(!has_prefix("xlocalhost:80", "localhost:"));
    assert!(has_prefix("anything", ""));
    assert!(has_prefix("", ""));
    assert!(!has_prefix("", "a"));
    assert!(has_prefix("äöü", "äö"));
}

#[test]
fn token_requests_are_decided_by_grant_type_and_credentials() {
    assert_eq!(
        check_token_request("client_credentials", DEMO_GLOBAL_USERNAME, DEMO_GLOBAL_PASSWORD),
        Ok(())
    );
    assert_eq!(check_token_request("client_credentials", "hello", "pathfinder"), Ok(()));
    assert_eq!(
        check_token_request("client_credentials", "transport_service_user", "ileap"),
        Ok(())
    );
    assert_eq!(
        check_token_request("client_credentials", "transport_service_organizer", "ileap"),
        Ok(())
    );
    assert_eq!(
        check_token_request("client_credentials", "random_data", "random_data"),
        Ok(())
    );
    assert_eq!(
        check_token_request("client_credentials", "hello", "wrong_password"),
        Err(OAuth2ErrorMessage {
            error: "invalid_client",
            error_description: "Invalid client credentials"
        })
    );
    assert_eq!(
        check_token_request("client_credentials", "hello", "ileap"),
        Err(OAuth2ErrorMessage {
            error: "invalid_client",
            error_description: "Invalid client credentials"
        })
    );
    assert_eq!(
        check_token_request("password", "hello", "pathfinder"),
        Err(OAuth2ErrorMessage {
            error: "unsupported_grant_type",
            error_description: "The grant type is not supported by this server"
        })
    );
}

#[test]
fn error_bodies() {
    assert_eq!(
        ErrorBody::bad_request(),
        ErrorBody {
            message: "Bad Request",
            code: "BadRequest"
        }
    );
    assert_eq!(
        ErrorBody::access_denied(),
        ErrorBody {
            message: "Access Denied",
            code: "AccessDenied"
        }
    );
    assert_eq!(
        ErrorBody::no_such_footprint(),
        ErrorBody {
            message: "The specified footprint does not exist",
            code: "NoSuchFootprint"
        }
    );
    assert_eq!(
        ErrorBody::not_implemented(),
        ErrorBody {
            message: "Not Implemented",
            code: "NotImplemented"
        }
    );
    assert_eq!(
        ErrorBody::unauthorized(),
        ErrorBody {
            message: "Unauthorized",
            code: "Unauthorized"
        }
    );
}

#[test]
fn the_shipper_sees_the_shipments() {
    let data = demo_data();
    let seen = filtered_by_auth(data.clone(), DEMO_SHIPPER_USERNAME);
    let expected: Vec<_> = data
        .iter()
        .filter(|pf| schema_of(pf) == SHIPMENT_SCHEMA)
        .cloned()
        .collect();
    assert!(!seen.is_empty());
    assert_eq!(seen, expected);
}

#[test]
fn the_organizer_sees_the_operation_categories() {
    let data = demo_data();
    let seen = filtered_by_auth(data.clone(), DEMO_LSP_USERNAME);
    let expected: Vec<_> = data
        .iter()
        .filter(|pf| schema_of(pf) == TOC_SCHEMA || schema_of(pf) == HOC_SCHEMA)
        .cloned()
        .collect();
    assert!(!seen.is_empty());
    assert_eq!(seen, expected);
    assert_eq!(
        seen.len() + filtered_by_auth(data.clone(), DEMO_SHIPPER_USERNAME).len(),
        data.len()
    );
}

#[test]
fn everybody_else_sees_everything() {
    let data = demo_data();
    assert_eq!(filtered_by_auth(data.clone(), "hello"), data);
    assert_eq!(filtered_by_auth(data.clone(), ""), data);
}

#[test]
fn the_user_of_random_data_gets_fresh_footprints() {
    let data = demo_data();
    let seen = filtered_by_auth(data.clone(), RANDOM_DATA_USERNAME);
    for pf in &seen {
        assert!(!data.iter().any(|known| known.id == pf.id));
        assert_eq!(pf.company_name.0, "SINE Foundation");
    }
}

#[test]
fn footprints_without_extensions_have_no_schema() {
    let mut data = demo_data();
    data[0].extensions = None;
    let all = vec![SHIPMENT_SCHEMA, TOC_SCHEMA, HOC_SCHEMA];
    assert!(!has_schema(&data[0], &all));
    assert!(has_schema(&data[1], &all));
    assert!(!has_schema(&data[1], &vec![]));
    let n = data.len();
    assert_eq!(with_schemas(data, &all).len(), n - 1);
}

#[test]
fn footprint_is_found_by_its_identifier() {
    let data = demo_data();
    for (i, pf) in data.iter().enumerate() {
        assert_eq!(find_footprint(&data, pf.id), Some(i));
    }
    assert_eq!(find_footprint(&data, PfId(0)), None);
    assert_eq!(find_footprint::<ILeapType>(&vec![], PfId(0)), None);
}

fn listing_of(
    data: &[ProductFootprint<ILeapType>],
    limit: usize,
    offset: usize,
) -> ileap_data_model::PfListing {
    ileap_data_model::get_list(
        data.to_vec(),
        Some("hello"),
        limit,
        offset,
        ileap_data_model::Filter(None),
        Host(Some("api.pathfinder.sine.dev")),
    )
    .unwrap()
}

#[test]
fn listing_is_cut_into_pages() {
    let data = demo_data();
    let n = data.len();
    assert!(n >= 3);

    let first = listing_of(&data, 2, 0);
    assert_eq!(first.data, data[0..2].to_vec());
    assert_eq!(
        first.link,
        Some(
            "<https://api.pathfinder.sine.dev/2/footprints?offset=2&limit=2>; rel=\"next\""
                .to_string()
        )
    );

    let last = listing_of(&data, 2, n - 1);
    assert_eq!(last.data, data[n - 1..].to_vec());
    assert_eq!(last.link, None);

    let all = listing_of(&data, usize::MAX, 0);
    assert_eq!(all.data, data);
    assert_eq!(all.link, None);

    let empty = listing_of(&data, 5, n);
    assert!(empty.data.is_empty());
    assert_eq!(empty.link, None);

    let mut seen = vec![];
    let mut offset = 0;
    loop {
        let page = listing_of(&data, 4, offset);
        seen.extend(page.data.clone());
        offset += page.data.len();
        if page.link.is_none() {
            break;
        }
        assert_eq!(
            page.link,
            Some(format!(
                "<https://api.pathfinder.sine.dev/2/footprints?offset={offset}&limit=4>; rel=\"next\""
            ))
        );
    }
    assert_eq!(seen, data);
}

#[test]
fn listing_rejects_bad_requests() {
    let data = demo_data();
    let bad = Err(ErrorBody::bad_request());
    let host = Host(Some("localhost:8000"));
    assert_eq!(
        ileap_data_model::get_list(
            data.clone(),
            None,
            10,
            0,
            ileap_data_model::Filter(None),
            host
        ),
        bad
    );
    assert_eq!(
        ileap_data_model::get_list(
            data.clone(),
            Some("hello"),
            10,
            data.len() + 1,
            ileap_data_model::Filter(None),
            host
        ),
        bad
    );
    assert_eq!(
        ileap_data_model::get_list(
            data.clone(),
            Some("hello"),
            10,
            0,
            ileap_data_model::Filter(Some("created before now")),
            host
        ),
        bad
    );
    assert_eq!(
        ileap_data_model::get_footprints(
            data.clone(),
            None,
            None,
            ileap_data_model::Filter(None),
            host
        ),
        bad
    );
}

#[test]
fn listing_applies_the_filter_and_the_rights_of_the_user() {
    let data = demo_data();
    let shipments: Vec<_> = data
        .iter()
        .filter(|pf| schema_of(pf) == SHIPMENT_SCHEMA)
        .cloned()
        .collect();
    let listing = ileap_data_model::get_footprints(
        data.clone(),
        Some(DEMO_SHIPPER_USERNAME),
        None,
        ileap_data_model::Filter(Some(
            "companyIds/any(companyId:(companyId eq 'urn:sine:example'))",
        )),
        Host(None),
    )
    .unwrap();
    assert_eq!(listing.data, shipments);
    assert_eq!(listing.link, None);

    let none = ileap_data_model::get_footprints(
        data.clone(),
        Some(DEMO_SHIPPER_USERNAME),
        Some(1),
        ileap_data_model::Filter(Some("productCategoryCpc eq '1'")),
        Host(None),
    )
    .unwrap();
    assert!(none.data.is_empty());

    let one = ileap_data_model::get_footprints(
        data.clone(),
        Some("hello"),
        Some(1),
        ileap_data_model::Filter(Some("productCategoryCpc eq '83117'")),
        Host(Some("127.0.0.1:8000")),
    )
    .unwrap();
    assert_eq!(one.data, data[0..1].to_vec());
    assert_eq!(
        one.link,
        Some("<http://127.0.0.1:8000/2/footprints?offset=1&limit=1>; rel=\"next\"".to_string())
    );
}

#[test]
fn a_footprint_is_got_by_its_identifier() {
    let data = demo_data();
    for pf in &data {
        assert_eq!(
            ileap_data_model::get_pcf(data.clone(), pf.id, Some("hello")),
            Ok(pf.clone())
        );
    }
    assert_eq!(
        ileap_data_model::get_pcf(data.clone(), data[0].id, None),
        Err(ErrorBody::bad_request())
    );
    assert_eq!(
        ileap_data_model::get_pcf(data.clone(), PfId(1), Some("hello")),
        Err(ErrorBody::bad_request())
    );
    let toc = data
        .iter()
        .find(|pf| schema_of(pf) == TOC_SCHEMA)
        .unwrap();
    assert_eq!(
        ileap_data_model::get_pcf(data.clone(), toc.id, Some(DEMO_SHIPPER_USERNAME)),
        Err(ErrorBody::bad_request())
    );
    assert_eq!(
        ileap_data_model::get_pcf(data.clone(), toc.id, Some(DEMO_LSP_USERNAME)),
        Ok(toc.clone())
    );
}

fn flat(id: &str, members: &[(&str, &str)]) -> Vec<(String, String)> {
    let mut out = vec![("activityId".to_string(), id.to_string())];
    out.extend(
        members
            .iter()
            .map(|(k, v)| (k.to_string(), v.to_string())),
    );
    out
}

fn tad(id: &str) -> ileap_data_model::Tad {
    let place = ileap_data_model::Location {
        street: None,
        zip: None,
        city: "Bremen".to_string(),
        country: ileap_data_model::ISO3166CC("DE".to_string()),
        iata: None,
        locode: None,
        uic: None,
        lat: None,
        lng: None,
    };
    ileap_data_model::Tad {
        activity_id: id.to_string(),
        consignment_ids: vec![],
        distance: ileap_data_model::GlecDistance::new_actual(ileap_data_model::WrappedDecimal(
            ileap_data_model::Decimal::new(100, 0),
        )),
        mass: None,
        load_factor: None,
        empty_distance_factor: None,
        origin: place.clone(),
        destination: place,
        departure_at: ileap_data_model::Timestamp::new(0, 0),
        arrival_at: ileap_data_model::Timestamp::new(3600, 0),
        mode: ileap_data_model::TransportMode::Road,
        packaging_or_tr_eq_type: None,
        packaging_or_tr_eq_amount: None,
        energy_carriers: None,
        temperature_control: None,
    }
}

fn tad_ids(r: Result<ileap_data_model::api::TadListing, ErrorBody>) -> Vec<String> {
    r.unwrap()
        .data
        .iter()
        .map(|t| t.activity_id.clone())
        .collect()
}

#[test]
fn transport_activity_data_pass_by_their_members() {
    let data = vec![tad("1"), tad("2"), tad("3")];
    let flattened = vec![
        flat("1", &[("mode", "road"), ("origin.city", "bremen")]),
        flat("2", &[("mode", "rail"), ("origin.city", "berlin")]),
        flat("3", &[("mode", "road"), ("feedstocks[0].feedstock", "fossil")]),
    ];
    let host = Host(Some("localhost:8000"));
    let get = |filter: Option<Vec<(String, Vec<String>)>>, limit, offset| {
        ileap_data_model::api::get_tad(
            data.clone(),
            &flattened,
            true,
            limit,
            offset,
            filter,
            host,
        )
    };
    let f = |k: &str, v: &[&str]| {
        Some(vec![(
            k.to_string(),
            v.iter().map(|s| s.to_string()).collect::<Vec<_>>(),
        )])
    };

    assert_eq!(tad_ids(get(None, None, None)), vec!["1", "2", "3"]);
    assert_eq!(tad_ids(get(f("mode", &["Road"]), None, None)), vec!["1", "3"]);
    assert_eq!(tad_ids(get(f("mode", &["ROAD", "rail"]), None, None)), vec!["1", "2", "3"]);
    assert_eq!(tad_ids(get(f("city", &["Berlin"]), None, None)), vec!["2"]);
    assert_eq!(tad_ids(get(f("feedstock", &["fossil"]), None, None)), vec!["3"]);
    assert_eq!(tad_ids(get(f("mode", &["air"]), None, None)), Vec::<String>::new());
    assert_eq!(tad_ids(get(f("", &["bremen"]), None, None)), vec!["1"]);
    assert_eq!(tad_ids(get(f("colour", &["road"]), None, None)), Vec::<String>::new());
    assert_eq!(tad_ids(get(Some(vec![]), None, None)), Vec::<String>::new());

    let page = get(None, Some(2), None).unwrap();
    assert_eq!(page.data.len(), 2);
    assert_eq!(
        page.link,
        Some("<http://localhost:8000/2/ileap/tad?offset=2&limit=2>; rel=\"next\"".to_string())
    );
    let page = get(None, Some(2), Some(2)).unwrap();
    assert_eq!(page.data.len(), 1);
    assert_eq!(page.link, None);
    assert_eq!(get(None, None, Some(4)), Err(ErrorBody::access_denied()));
    assert_eq!(
        ileap_data_model::api::get_tad(data.clone(), &flattened, false, None, None, None, host),
        Err(ErrorBody::access_denied())
    );
}

#[test]
fn ten_transport_activities_are_listed_where_no_limit_is_given() {
    let data: Vec<_> = (0..25).map(|i| tad(&i.to_string())).collect();
    let flattened: Vec<_> = (0..25).map(|i| flat(&i.to_string(), &[])).collect();
    let page =
        ileap_data_model::api::get_tad(data, &flattened, true, None, None, None, Host(None))
            .unwrap();
    assert_eq!(page.data.len(), 10);
    assert_eq!(
        page.link,
        Some("</2/ileap/tad?offset=10&limit=10>; rel=\"next\"".to_string())
    );
}

#[test]
fn a_text_holds_another() {
    for (hay, needle) in [
        ("origin.city", "city"),
        ("origin.city", "origin"),
        ("origin.city", "n.c"),
        ("origin.city", ""),
        ("", ""),
        ("", "a"),
        ("abc", "abcd"),
        ("abc", "abc"),
        ("aab", "ab"),
        ("feedstocks[0].feedstock", "[0]"),
        ("äöü", "ö"),
        ("abc", "ac"),
    ] {
        assert_eq!(
            ileap_data_model::api::text_contains(hay, needle),
            hay.contains(needle),
            "{hay:?} {needle:?}"
        );
    }
}

fn thirteen() -> Vec<ProductFootprint<ILeapType>> {
    let mut data = demo_data();
    while data.len() < 13 {
        data.extend(demo_data());
    }
    data.truncate(13);
    data
}

#[test]
fn a_page_is_owed_for_every_offset_within_the_listing() {
    let data = thirteen();
    let host = Host(Some("api.pathfinder.sine.dev"));
    let first = page_of_listing(data.clone(), 7, 0, &host).unwrap();
    assert_eq!(first.data, data[0..7].to_vec());
    assert_eq!(
        first.link,
        Some(
            "<https://api.pathfinder.sine.dev/2/footprints?offset=7&limit=7>; rel=\"next\""
                .to_string()
        )
    );
    let second = page_of_listing(data.clone(), 7, 7, &host).unwrap();
    assert_eq!(second.data, data[7..13].to_vec());
    assert_eq!(second.link, None);
    for offset in 0..=13 {
        for limit in [0, 1, 5, 13, 100] {
            let listed = ileap_data_model::get_list(
                data.clone(),
                Some("hello"),
                limit,
                offset,
                ileap_data_model::Filter(None),
                host,
            )
            .unwrap();
            let end = (offset + limit).min(13);
            assert_eq!(listed.data, data[offset..end].to_vec());
            assert_eq!(listed.link.is_some(), end < 13);
            assert_eq!(
                page_of_listing(data.clone(), limit, offset, &host),
                Ok(listed)
            );
        }
    }
    assert_eq!(
        page_of_listing(data.clone(), 7, 14, &host),
        Err(ErrorBody::bad_request())
    );
    assert_eq!(
        page_of_listing(vec![], 7, 0, &host).unwrap().data,
        vec![]
    );
}

#[test]
fn the_user_of_random_data_gets_a_page_of_fresh_footprints() {
    let data = thirteen();
    let listed = ileap_data_model::get_footprints(
        data.clone(),
        Some(RANDOM_DATA_USERNAME),
        None,
        ileap_data_model::Filter(None),
        Host(None),
    )
    .unwrap();
    assert!(!listed.data.is_empty());
    assert!(listed.link.is_none());
    for pf in &listed.data {
        assert!(!data.contains(pf));
    }
    assert_eq!(
        ileap_data_model::get_footprints(
            data.clone(),
            Some(RANDOM_DATA_USERNAME),
            None,
            ileap_data_model::Filter(Some("created eq")),
            Host(None),
        ),
        Err(ErrorBody::bad_request())
    );
}

#[test]
fn the_first_footprint_with_the_identifier_is_handed_out() {
    let data = thirteen();
    let mut twice = data.clone();
    let mut copy = data[3].clone();
    copy.version = ileap_data_model::VersionInteger(copy.version.0 + 1);
    twice.push(copy);
    assert_eq!(footprint_with_id(twice.clone(), data[3].id), Ok(data[3].clone()));
    assert_eq!(
        footprint_with_id(twice.clone(), PfId(7)),
        Err(ErrorBody::bad_request())
    );
    assert_eq!(
        footprint_with_id(vec![], data[3].id),
        Err(ErrorBody::bad_request())
    );
}
