use ileap_data_model::flatten::{add_nested, flatten, set_member};
use ileap_data_model::text::integer_text;
use ileap_data_model::Json;

fn text(s: &str) -> Json {
    Json::Text(s.to_string())
}

fn object(members: Vec<(&str, Json)>) -> Json {
    Json::Object(
        members
            .into_iter()
            .map(|(name, value)| (name.to_string(), value))
            .collect(),
    )
}

fn flat(members: &[(&str, &str)]) -> Vec<(String, String)> {
    members
        .iter()
        .map(|(path, text)| (path.to_string(), text.to_string()))
        .collect()
}

fn flattened(document: Json) -> Vec<(String, String)> {
    match document {
        Json::Object(members) => flatten(&members),
        _ => panic!("an object is flattened"),
    }
}

#[test]
fn a_nested_member_stands_under_its_path() {
    assert_eq!(
        flattened(object(vec![("abc", object(vec![("def", text("Ghi"))]))])),
        flat(&[("abc.def", "ghi")])
    );
    assert_eq!(flattened(object(vec![])), flat(&[]));
}

#[test]
fn texts_are_lowered_and_whole_numbers_written_in_digits() {
    assert_eq!(
        flattened(object(vec![
            ("activityId", text("ABC-1")),
            ("mass", Json::Integer(-120)),
            ("count", Json::Integer(0)),
            ("big", Json::Integer(18_446_744_073_709_551_615)),
        ])),
        flat(&[
            ("activityId", "abc-1"),
            ("mass", "-120"),
            ("count", "0"),
            ("big", "18446744073709551615"),
        ])
    );
}

#[test]
fn nulls_truth_values_and_fractions_are_left_out() {
    assert_eq!(
        flattened(object(vec![
            ("a", Json::Null),
            ("b", Json::Bool(true)),
            ("c", Json::Float { bits: 0x3ff8_0000_0000_0000 }),
            ("d", text("D")),
            ("e", object(vec![("f", Json::Null)])),
        ])),
        flat(&[("d", "d")])
    );
}

#[test]
fn the_objects_of_an_array_stand_under_their_positions() {
    assert_eq!(
        flattened(object(vec![
            (
                "legs",
                Json::Array(vec![
                    object(vec![("mode", text("Road"))]),
                    text("no object"),
                    object(vec![
                        ("mode", text("RAIL")),
                        ("hub", object(vec![("city", text("Köln"))])),
                    ]),
                ])
            ),
            (
                "consignmentIds",
                Json::Array(vec![object(vec![("id", text("c-1"))])])
            ),
            ("names", Json::Array(vec![text("x"), Json::Integer(1)])),
        ])),
        flat(&[
            ("legs[0].mode", "road"),
            ("legs[2].mode", "rail"),
            ("legs[2].hub.city", "köln"),
        ])
    );
    let many = Json::Array((0..12).map(|i| object(vec![("n", Json::Integer(i))])).collect());
    let paths: Vec<String> = flattened(object(vec![("a", many)]))
        .into_iter()
        .map(|m| m.0)
        .collect();
    assert_eq!(paths[9], "a[9].n");
    assert_eq!(paths[10], "a[10].n");
    assert_eq!(paths[11], "a[11].n");
}

#[test]
fn a_member_that_is_written_again_takes_the_place_of_the_one_before() {
    assert_eq!(
        flattened(object(vec![
            ("a.b", text("first")),
            ("c", text("C")),
            ("a", object(vec![("b", text("Second"))])),
        ])),
        flat(&[("a.b", "second"), ("c", "c")])
    );
    let mut members = flat(&[("x", "1"), ("y", "2")]);
    set_member(&mut members, "y".to_string(), "3".to_string());
    set_member(&mut members, "z".to_string(), "4".to_string());
    assert_eq!(members, flat(&[("x", "1"), ("y", "3"), ("z", "4")]));
    add_nested(&mut members, "x.", &flat(&[("k", "V"), ("l", "W")]));
    assert_eq!(
        members,
        flat(&[("x", "1"), ("y", "3"), ("z", "4"), ("x.k", "v"), ("x.l", "w")])
    );
}

#[test]
fn whole_numbers_are_written_with_their_sign() {
    assert_eq!(integer_text(0), "0");
    assert_eq!(integer_text(7), "7");
    assert_eq!(integer_text(-1), "-1");
    assert_eq!(integer_text(i128::MAX), i128::MAX.to_string());
    assert_eq!(integer_text(i128::MIN), i128::MIN.to_string());
    for n in [-1000i128, -999, -10, -9, 9, 10, 99, 100, 12345678901234567890] {
        assert_eq!(integer_text(n), n.to_string());
    }
}

#[test]
fn a_transport_activity_is_flattened_from_its_document() {
    let document = object(vec![
        ("activityId", text("A-17")),
        ("consignmentIds", Json::Array(vec![text("C-1")])),
        (
            "distance",
            object(vec![
                ("value", text("12.5")),
                ("dataSource", text("Route Planner")),
            ]),
        ),
    ]);
    let members = flattened(document);
    assert_eq!(
        members,
        flat(&[
            ("activityId", "a-17"),
            ("distance.value", "12.5"),
            ("distance.dataSource", "route planner"),
        ])
    );
    assert!(ileap_data_model::api::has_activity(&members, "a-17"));
}
