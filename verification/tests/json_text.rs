use tgbot::json::{render_json, Decimal, JsonValue};

fn obj(fields: Vec<(&str, JsonValue)>) -> JsonValue {
    JsonValue::Obj(
        fields.into_iter().map(|(k, v)| (String::from(k), v)).collect(),
    )
}

#[test]
fn renders_scalars() {
    assert_eq!(render_json(&JsonValue::Null), "null");
    assert_eq!(render_json(&JsonValue::Bool(true)), "true");
    assert_eq!(render_json(&JsonValue::Bool(false)), "false");
    assert_eq!(render_json(&JsonValue::Int(0)), "0");
    assert_eq!(render_json(&JsonValue::Int(1234567890)), "1234567890");
    assert_eq!(render_json(&JsonValue::Int(-42)), "-42");
    assert_eq!(render_json(&JsonValue::Int(i64::MIN)), "-9223372036854775808");
    assert_eq!(render_json(&JsonValue::Int(i64::MAX)), "9223372036854775807");
    assert_eq!(render_json(&JsonValue::Str(String::from("hi"))), r#""hi""#);
}

#[test]
fn renders_decimals() {
    assert_eq!(render_json(&JsonValue::Dec(Decimal::new(30, 1))), "3.0");
    assert_eq!(render_json(&JsonValue::Dec(Decimal::new(-25, 1))), "-2.5");
    assert_eq!(render_json(&JsonValue::Dec(Decimal::new(5, 2))), "0.05");
    assert_eq!(render_json(&JsonValue::Dec(Decimal::new(1234, 2))), "12.34");
}

#[test]
fn renders_escapes() {
    assert_eq!(
        render_json(&JsonValue::Str(String::from("a\"b\\c\nd\re\tf"))),
        r#""a\"b\\c\nd\re\tf""#
    );
    assert_eq!(
        render_json(&JsonValue::Str(String::from("\u{8}\u{c}\u{1}"))),
        r#""\b\f\u0001""#
    );
    assert_eq!(render_json(&JsonValue::Str(String::from("😻"))), "\"😻\"");
}

#[test]
fn renders_compound_values() {
    let v = obj(vec![
        ("a", JsonValue::Arr(vec![JsonValue::Int(1), JsonValue::Int(2)])),
        ("b", obj(vec![("c", JsonValue::Null)])),
        ("d", JsonValue::Arr(Vec::new())),
    ]);
    assert_eq!(render_json(&v), r#"{"a":[1,2],"b":{"c":null},"d":[]}"#);
}

#[test]
fn rendered_text_is_what_serde_reads_back() {
    // The renderer and the trusted parser must agree: rendering a document
    // and parsing the text yields the same document, and serde itself accepts
    // the text.
    let v = obj(vec![
        ("text", JsonValue::Str(String::from("line\n\"quoted\" \\ 😻"))),
        ("n", JsonValue::Int(-7)),
        ("arr", JsonValue::Arr(vec![JsonValue::Bool(false), JsonValue::Null])),
    ]);
    let rendered = render_json(&v);
    let by_serde: serde_json::Value = serde_json::from_str(&rendered).unwrap();
    assert_eq!(by_serde["text"], "line\n\"quoted\" \\ 😻");
    assert_eq!(by_serde["n"], -7);

    // The parser stores object members in its own key order, so the texts
    // are compared as documents.
    let reparsed = tgbot::json::parse_json(&rendered).unwrap();
    let reparsed_by_serde: serde_json::Value =
        serde_json::from_str(&render_json(&reparsed)).unwrap();
    assert_eq!(reparsed_by_serde, by_serde);
}

#[test]
fn parser_rejects_invalid_text_and_reads_structure() {
    assert!(tgbot::json::parse_json("this is not json").is_none());
    assert!(tgbot::json::parse_json("{\"a\":").is_none());
    // A parsed document reflects the input, not the argument handed back:
    // the text form is normalized.
    let parsed = tgbot::json::parse_json(" { \"a\" : [ 1 , 2 ] } ").unwrap();
    assert_eq!(render_json(&parsed), r#"{"a":[1,2]}"#);
}
