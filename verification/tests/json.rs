use meta_secret_core::json::{canonical_text, JsonValue};
use meta_secret_core::security::canonical_json;

fn s(text: &str) -> String {
    text.to_string()
}

#[test]
fn canonical_json_sorts_keys_at_every_level_and_keeps_array_order() {
    let value = JsonValue::Object(vec![
        (s("z"), JsonValue::Array(vec![JsonValue::Null, JsonValue::Bool(true), JsonValue::PosInt(3)])),
        (
            s("a"),
            JsonValue::Object(vec![(s("b"), JsonValue::Str(s("x"))), (s("a"), JsonValue::PosInt(1))]),
        ),
    ]);
    let canonical = canonical_json(&value);
    assert_eq!(String::from_utf8(canonical).unwrap(), r#"{"a":{"a":1,"b":"x"},"z":[null,true,3]}"#);
}

#[test]
fn canonical_json_escapes_strings_and_writes_numbers() {
    let value = JsonValue::Array(vec![
        JsonValue::Str(s("a\"b\\c\nd\u{1}é")),
        JsonValue::NegInt(-42),
        JsonValue::NegInt(i64::MIN),
        JsonValue::PosInt(u64::MAX),
        JsonValue::Bool(false),
        JsonValue::Object(vec![]),
        JsonValue::Array(vec![]),
    ]);
    assert_eq!(
        canonical_text(&value),
        "[\"a\\\"b\\\\c\\nd\\u0001é\",-42,-9223372036854775808,18446744073709551615,false,{},[]]"
    );
}
