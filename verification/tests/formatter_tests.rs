use moist_sensor::sample_formatter::SampleFormatter;

#[test]
fn format_emits_the_exact_payload() {
    let formatter = SampleFormatter::new(String::from("plant1"), String::from("moisture"));
    let out = formatter.format(&(1554324242000u64, 1u32));
    assert_eq!(
        String::from_utf8(out).unwrap(),
        "{\"sensor_id\":\"plant1\",\"sensor_type\":\"moisture\",\"timestamp\":1554324242000,\"value\":1}"
    );
}

#[test]
fn format_renders_extreme_numbers() {
    let formatter = SampleFormatter::new(String::from("p"), String::from("m"));
    let out = formatter.format(&(0u64, u32::MAX));
    assert_eq!(
        String::from_utf8(out).unwrap(),
        "{\"sensor_id\":\"p\",\"sensor_type\":\"m\",\"timestamp\":0,\"value\":4294967295}"
    );
    let out = formatter.format(&(u64::MAX, 0u32));
    assert_eq!(
        String::from_utf8(out).unwrap(),
        "{\"sensor_id\":\"p\",\"sensor_type\":\"m\",\"timestamp\":18446744073709551615,\"value\":0}"
    );
}

#[test]
fn format_escapes_strings_as_json() {
    let formatter = SampleFormatter::new(
        String::from("a\"b\\c\nd\te\u{1}"),
        String::from("t\rx\u{8}y\u{c}z"),
    );
    let out = formatter.format(&(1u64, 0u32));
    assert_eq!(
        String::from_utf8(out).unwrap(),
        "{\"sensor_id\":\"a\\\"b\\\\c\\nd\\te\\u0001\",\"sensor_type\":\"t\\rx\\by\\fz\",\"timestamp\":1,\"value\":0}"
    );
}

#[test]
fn format_escapes_control_bytes_with_hex_letters() {
    let formatter = SampleFormatter::new(String::from("a\u{1f}b\u{0b}"), String::from("m"));
    let out = formatter.format(&(1u64, 0u32));
    assert_eq!(
        String::from_utf8(out).unwrap(),
        "{\"sensor_id\":\"a\\u001fb\\u000b\",\"sensor_type\":\"m\",\"timestamp\":1,\"value\":0}"
    );
}

#[test]
fn format_keeps_unicode_text_raw() {
    let formatter = SampleFormatter::new(String::from("plänt→1"), String::from("moisture"));
    let out = formatter.format(&(7u64, 1u32));
    assert_eq!(
        String::from_utf8(out).unwrap(),
        "{\"sensor_id\":\"plänt→1\",\"sensor_type\":\"moisture\",\"timestamp\":7,\"value\":1}"
    );
}

#[test]
fn format_agrees_with_a_json_parser() {
    let formatter = SampleFormatter::new(String::from("plant \"A\""), String::from("moist\nure"));
    let out = formatter.format(&(1554324242123u64, 1u32));
    let parsed: serde_json::Value = serde_json::from_slice(&out).unwrap();
    assert_eq!(parsed["sensor_id"].as_str().unwrap(), "plant \"A\"");
    assert_eq!(parsed["sensor_type"].as_str().unwrap(), "moist\nure");
    assert_eq!(parsed["timestamp"].as_u64().unwrap(), 1554324242123);
    assert_eq!(parsed["value"].as_u64().unwrap(), 1);
    // And the payload is byte-identical with what the JSON encoder itself
    // writes for the same object (keys in alphabetical order).
    let mut obj = serde_json::Map::new();
    obj.insert(
        String::from("sensor_id"),
        serde_json::Value::String(String::from("plant \"A\"")),
    );
    obj.insert(
        String::from("sensor_type"),
        serde_json::Value::String(String::from("moist\nure")),
    );
    obj.insert(
        String::from("timestamp"),
        serde_json::Value::Number(serde_json::Number::from(1554324242123u64)),
    );
    obj.insert(
        String::from("value"),
        serde_json::Value::Number(serde_json::Number::from(1u32)),
    );
    let reference = serde_json::to_vec(&serde_json::Value::Object(obj)).unwrap();
    assert_eq!(out, reference);
}
