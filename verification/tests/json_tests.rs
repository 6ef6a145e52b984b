use txtcv::json::{to_json_text, Json};
use txtcv::parse::parse_document;

fn text(s: &str) -> Json {
    Json::Text(String::from(s))
}

#[test]
fn serializes_scalars() {
    assert_eq!(to_json_text(&Json::Null), "null");
    assert_eq!(to_json_text(&Json::Bool(true)), "true");
    assert_eq!(to_json_text(&Json::Bool(false)), "false");
    assert_eq!(to_json_text(&Json::Num(String::from("42"))), "42");
    assert_eq!(to_json_text(&Json::Num(String::from("-1.5e3"))), "-1.5e3");
    assert_eq!(to_json_text(&text("hi")), "\"hi\"");
    assert_eq!(to_json_text(&text("")), "\"\"");
}

#[test]
fn serializes_arrays_and_objects() {
    assert_eq!(to_json_text(&Json::Arr(vec![])), "[]");
    assert_eq!(to_json_text(&Json::Obj(vec![])), "{}");
    let arr = Json::Arr(vec![Json::Null, Json::Num(String::from("1")), text("x")]);
    assert_eq!(to_json_text(&arr), "[null,1,\"x\"]");
    let obj = Json::Obj(vec![
        (String::from("a"), Json::Num(String::from("1"))),
        (String::from("b"), Json::Arr(vec![Json::Bool(true)])),
    ]);
    assert_eq!(to_json_text(&obj), "{\"a\":1,\"b\":[true]}");
}

#[test]
fn escapes_special_characters() {
    assert_eq!(to_json_text(&text("a\"b")), "\"a\\\"b\"");
    assert_eq!(to_json_text(&text("a\\b")), "\"a\\\\b\"");
    assert_eq!(to_json_text(&text("a\nb\tc\r")), "\"a\\nb\\tc\\r\"");
    assert_eq!(to_json_text(&text("\u{1}\u{1f}")), "\"\\u0001\\u001f\"");
    assert_eq!(to_json_text(&text("héllo")), "\"héllo\"");
}

#[test]
fn parses_scalars_and_numbers() {
    assert_eq!(parse_document("null").unwrap(), Json::Null);
    assert_eq!(parse_document("true").unwrap(), Json::Bool(true));
    assert_eq!(parse_document("7").unwrap(), Json::Num(String::from("7")));
    assert_eq!(parse_document("\"ok\"").unwrap(), text("ok"));
}

#[test]
fn parses_structures() {
    let d = parse_document("{\"a\": 1, \"b\": [true, null]}").unwrap();
    assert_eq!(
        d,
        Json::Obj(vec![
            (String::from("a"), Json::Num(String::from("1"))),
            (
                String::from("b"),
                Json::Arr(vec![Json::Bool(true), Json::Null])
            ),
        ])
    );
}

#[test]
fn rejects_malformed_text() {
    assert!(parse_document("{\"a\":").is_err());
    assert!(parse_document("").is_err());
    assert!(parse_document("nul").is_err());
}

#[test]
fn serializer_output_parses_back() {
    let d = Json::Obj(vec![
        (String::from("k\"ey"), text("v\nal")),
        (
            String::from("list"),
            Json::Arr(vec![Json::Num(String::from("2.5")), Json::Bool(false)]),
        ),
    ]);
    let rendered = to_json_text(&d);
    let back = parse_document(&rendered).unwrap();
    assert_eq!(back, d);
    let v: serde_json::Value = serde_json::from_str(&rendered).unwrap();
    assert_eq!(v["k\"ey"], serde_json::Value::String(String::from("v\nal")));
}
