use shiftbuilder::json::{element_at, int_at, member_at, parse_json, text_at, Json};

#[test]
fn parse_json_reads_an_object() {
    let doc = parse_json("{\"spreadsheet_id\": \"abc\", \"n\": 7}").unwrap();
    assert_eq!(doc.member("spreadsheet_id"), Some(&Json::Text("abc".to_string())));
    assert_eq!(doc.member("n"), Some(&Json::Number(Some(7))));
    assert_eq!(doc.member("missing"), None);
}

#[test]
fn parse_json_rejects_what_is_no_document() {
    assert_eq!(parse_json("not json"), None);
    assert_eq!(parse_json("{\"a\": 1} trailing"), None);
    assert_eq!(parse_json(""), None);
    assert_eq!(parse_json("{\"a\": }"), None);
}

#[test]
fn parse_json_reads_every_kind_of_value() {
    let doc = parse_json("[null, true, false, \"x\", [], {}]").unwrap();
    assert_eq!(
        doc,
        Json::Array(vec![
            Json::Null,
            Json::Bool(true),
            Json::Bool(false),
            Json::Text("x".to_string()),
            Json::Array(vec![]),
            Json::Object(vec![]),
        ])
    );
}

#[test]
fn parse_json_keeps_the_integers_that_fit() {
    let doc = parse_json("[1, -2, 1.5, 9223372036854775807, 9223372036854775808, 1e3]").unwrap();
    assert_eq!(
        doc,
        Json::Array(vec![
            Json::Number(Some(1)),
            Json::Number(Some(-2)),
            Json::Number(None),
            Json::Number(Some(i64::MAX)),
            Json::Number(None),
            Json::Number(None),
        ])
    );
}

#[test]
fn parse_json_unescapes_strings() {
    let doc = parse_json("{\"k\": \"a\\nb \\u3042\"}").unwrap();
    assert_eq!(doc.member("k"), Some(&Json::Text("a\nb あ".to_string())));
}

#[test]
fn parse_json_keeps_the_last_of_repeated_members() {
    let doc = parse_json("{\"a\": 1, \"a\": 2}").unwrap();
    assert_eq!(doc.member("a"), Some(&Json::Number(Some(2))));
    assert_eq!(doc, Json::Object(vec![("a".to_string(), Json::Number(Some(2)))]));
}

#[test]
fn member_is_the_first_of_that_name() {
    let doc = Json::Object(vec![
        ("a".to_string(), Json::Number(Some(1))),
        ("b".to_string(), Json::Null),
        ("a".to_string(), Json::Number(Some(2))),
    ]);
    assert_eq!(doc.member("a"), Some(&Json::Number(Some(1))));
    assert_eq!(doc.member("b"), Some(&Json::Null));
    assert_eq!(doc.member("c"), None);
    assert_eq!(doc.member(""), None);
}

#[test]
fn member_of_what_is_no_object_is_none() {
    assert_eq!(Json::Null.member("a"), None);
    assert_eq!(Json::Array(vec![Json::Null]).member("0"), None);
    assert_eq!(Json::Text("a".to_string()).member("a"), None);
}

#[test]
fn element_is_by_position() {
    let doc = Json::Array(vec![Json::Bool(true), Json::Number(Some(5))]);
    assert_eq!(doc.element(0), Some(&Json::Bool(true)));
    assert_eq!(doc.element(1), Some(&Json::Number(Some(5))));
    assert_eq!(doc.element(2), None);
    assert_eq!(Json::Object(vec![]).element(0), None);
}

#[test]
fn as_text_as_int_as_items_tell_the_kinds_apart() {
    let text = Json::Text("t".to_string());
    let int = Json::Number(Some(-4));
    let other = Json::Number(None);
    let items = Json::Array(vec![Json::Null]);
    assert_eq!(text.as_text(), Some(&"t".to_string()));
    assert_eq!(int.as_text(), None);
    assert_eq!(int.as_int(), Some(-4));
    assert_eq!(other.as_int(), None);
    assert_eq!(text.as_int(), None);
    assert_eq!(items.as_items(), Some(&vec![Json::Null]));
    assert_eq!(text.as_items(), None);
}

#[test]
fn paths_stop_at_the_first_missing_step() {
    let doc = parse_json("{\"a\": [{\"b\": \"deep\", \"n\": 3}]}").unwrap();
    assert_eq!(
        text_at(member_at(element_at(doc.member("a"), 0), "b")),
        Some("deep".to_string())
    );
    assert_eq!(int_at(member_at(element_at(doc.member("a"), 0), "n")), Some(3));
    assert_eq!(text_at(member_at(element_at(doc.member("a"), 1), "b")), None);
    assert_eq!(text_at(member_at(element_at(doc.member("x"), 0), "b")), None);
    assert_eq!(int_at(member_at(element_at(doc.member("a"), 0), "b")), None);
    assert_eq!(text_at(None), None);
    assert_eq!(int_at(None), None);
}

#[test]
fn builders_make_objects_and_lists() {
    assert_eq!(Json::text("a"), Json::Text("a".to_string()));
    assert_eq!(Json::number(-7), Json::Number(Some(-7)));
    assert_eq!(Json::list_with(Json::Null), Json::Array(vec![Json::Null]));
    assert_eq!(
        Json::object_with("k", Json::Bool(true)),
        Json::Object(vec![("k".to_string(), Json::Bool(true))])
    );
    assert_eq!(
        Json::object_with("a", Json::number(1)).and_member("b", Json::number(2)),
        Json::Object(vec![
            ("a".to_string(), Json::Number(Some(1))),
            ("b".to_string(), Json::Number(Some(2))),
        ])
    );
    assert_eq!(Json::text("t").and_member("b", Json::Null), Json::Text("t".to_string()));
}

#[test]
fn clone_copies_the_whole_document() {
    let doc = parse_json("{\"a\": [1, {\"b\": \"x\", \"c\": [null, true, 2.5]}], \"d\": {}}").unwrap();
    let copy = doc.clone();
    assert_eq!(copy, doc);
    assert_eq!(Json::Null.clone(), Json::Null);
    assert_eq!(Json::Array(vec![]).clone(), Json::Array(vec![]));
}
