use lc1c_core::config::{json_to_toml, untranslatable, JsonNumber, JsonValue, TomlValue};

fn text(s: &str) -> JsonValue {
    JsonValue::Text(s.to_string())
}

fn integer(n: u64) -> JsonValue {
    JsonValue::Number(JsonNumber::PosInt(n))
}

#[test]
fn null_becomes_the_empty_string() {
    assert_eq!(json_to_toml(&JsonValue::Null), Some(TomlValue::Text(String::new())));
}

#[test]
fn scalars_keep_their_value() {
    assert_eq!(json_to_toml(&JsonValue::Bool(true)), Some(TomlValue::Boolean(true)));
    assert_eq!(json_to_toml(&JsonValue::Bool(false)), Some(TomlValue::Boolean(false)));
    assert_eq!(json_to_toml(&text("héllo")), Some(TomlValue::Text("héllo".to_string())));
    assert_eq!(json_to_toml(&integer(0)), Some(TomlValue::Integer(0)));
    assert_eq!(json_to_toml(&integer(17)), Some(TomlValue::Integer(17)));
    assert_eq!(
        json_to_toml(&JsonValue::Number(JsonNumber::NegInt(-5))),
        Some(TomlValue::Integer(-5))
    );
    assert_eq!(
        json_to_toml(&JsonValue::Number(JsonNumber::NegInt(i64::MIN))),
        Some(TomlValue::Integer(i64::MIN))
    );
    let bits: u64 = 1.5f64.to_bits();
    assert_eq!(
        json_to_toml(&JsonValue::Number(JsonNumber::Float { bits })),
        Some(TomlValue::Float { bits })
    );
}

#[test]
fn integers_beyond_64_signed_bits_have_no_counterpart() {
    assert_eq!(json_to_toml(&integer(i64::MAX as u64)), Some(TomlValue::Integer(i64::MAX)));
    assert_eq!(json_to_toml(&integer(i64::MAX as u64 + 1)), None);
    assert_eq!(json_to_toml(&integer(u64::MAX)), None);
    assert_eq!(untranslatable(), "Failed to convert JSON to TOML");
}

#[test]
fn arrays_drop_what_has_no_counterpart() {
    let json = JsonValue::Array(vec![integer(1), integer(u64::MAX), text("x"), JsonValue::Null, integer(2)]);
    assert_eq!(
        json_to_toml(&json),
        Some(TomlValue::Array(vec![
            TomlValue::Integer(1),
            TomlValue::Text("x".to_string()),
            TomlValue::Text(String::new()),
            TomlValue::Integer(2),
        ]))
    );
    assert_eq!(json_to_toml(&JsonValue::Array(vec![])), Some(TomlValue::Array(vec![])));
    assert_eq!(
        json_to_toml(&JsonValue::Array(vec![integer(u64::MAX)])),
        Some(TomlValue::Array(vec![]))
    );
}

#[test]
fn objects_become_tables_of_what_has_a_counterpart() {
    let json = JsonValue::Object(vec![
        ("a".to_string(), integer(1)),
        ("big".to_string(), integer(u64::MAX)),
        ("b".to_string(), JsonValue::Bool(true)),
    ]);
    assert_eq!(
        json_to_toml(&json),
        Some(TomlValue::Table(vec![
            ("a".to_string(), TomlValue::Integer(1)),
            ("b".to_string(), TomlValue::Boolean(true)),
        ]))
    );
    assert_eq!(json_to_toml(&JsonValue::Object(vec![])), Some(TomlValue::Table(vec![])));
}

#[test]
fn nesting_is_translated_all_the_way_down() {
    let json = JsonValue::Object(vec![
        (
            "chain".to_string(),
            JsonValue::Object(vec![
                ("name".to_string(), text("local")),
                (
                    "bakers".to_string(),
                    JsonValue::Array(vec![
                        JsonValue::Object(vec![("stake".to_string(), integer(u64::MAX))]),
                        JsonValue::Array(vec![JsonValue::Null, integer(3)]),
                    ]),
                ),
            ]),
        ),
        ("seed".to_string(), JsonValue::Null),
    ]);
    let expected = TomlValue::Table(vec![
        (
            "chain".to_string(),
            TomlValue::Table(vec![
                ("name".to_string(), TomlValue::Text("local".to_string())),
                (
                    "bakers".to_string(),
                    TomlValue::Array(vec![
                        TomlValue::Table(vec![]),
                        TomlValue::Array(vec![
                            TomlValue::Text(String::new()),
                            TomlValue::Integer(3),
                        ]),
                    ]),
                ),
            ]),
        ),
        ("seed".to_string(), TomlValue::Text(String::new())),
    ]);
    assert_eq!(json_to_toml(&json), Some(expected));
}
