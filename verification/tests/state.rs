use serde_json::Value;

use ufbt::json::{JsonNumber, JsonValue};
use ufbt::state::{always_updates, State, ALWAYS_UPDATE_VERSIONS};

fn to_json(value: &Value) -> JsonValue {
    match value {
        Value::Null => JsonValue::Null,
        Value::Bool(flag) => JsonValue::Bool(*flag),
        Value::Number(number) => JsonValue::Number(if let Some(n) = number.as_u64() {
            JsonNumber::PosInt(n)
        } else if let Some(n) = number.as_i64() {
            JsonNumber::NegInt(n)
        } else {
            JsonNumber::Float(number.to_string())
        }),
        Value::String(text) => JsonValue::String(text.clone()),
        Value::Array(items) => JsonValue::Array(items.iter().map(to_json).collect()),
        Value::Object(fields) => JsonValue::Object(
            fields
                .iter()
                .map(|(key, value)| (key.clone(), to_json(value)))
                .collect(),
        ),
    }
}

fn state_of(text: &str) -> State {
    let value: Value = serde_json::from_str(text).expect("valid JSON");
    match to_json(&value) {
        JsonValue::Object(values) => State::new(values),
        _ => panic!("expected an object"),
    }
}

#[test]
fn always_update_versions_match_ufbt() {
    assert_eq!(ALWAYS_UPDATE_VERSIONS, ["unknown", "local"]);
    for version in ALWAYS_UPDATE_VERSIONS {
        assert!(always_updates(version));
    }
    assert!(!always_updates("Unknown"));
    assert!(!always_updates("1.0"));
}

#[test]
fn getters_read_the_well_known_keys() {
    let state = state_of(
        r#"{
            "hw_target": "f7",
            "mode": "channel",
            "version": "1.3.4",
            "json_index": "https://update.flipperzero.one/firmware/directory.json",
            "channel": "release"
        }"#,
    );

    assert_eq!(state.hw_target(), Some("f7"));
    assert_eq!(state.mode(), Some("channel"));
    assert_eq!(state.version(), Some("1.3.4"));
    assert_eq!(
        state.json_index(),
        Some("https://update.flipperzero.one/firmware/directory.json")
    );
    assert_eq!(state.channel(), Some("release"));
}

#[test]
fn getters_yield_nothing_for_absent_keys() {
    let state = State::new(Vec::new());

    assert_eq!(state.hw_target(), None);
    assert_eq!(state.mode(), None);
    assert_eq!(state.version(), None);
    assert_eq!(state.json_index(), None);
    assert_eq!(state.channel(), None);
}

#[test]
fn getters_yield_nothing_for_a_null_value() {
    let state = state_of(r#"{"hw_target": null}"#);

    assert_eq!(state.hw_target(), None);
}

#[test]
fn getters_yield_nothing_for_a_value_that_is_not_a_string() {
    let state = state_of(r#"{"version": 7, "channel": ["release"]}"#);

    assert_eq!(state.version(), None);
    assert_eq!(state.channel(), None);
}

#[test]
fn version_unknown_for_the_always_update_versions() {
    for version in ALWAYS_UPDATE_VERSIONS {
        assert!(
            state_of(&format!(r#"{{"version": "{version}"}}"#)).is_version_unknown(),
            "{version}"
        );
    }
}

#[test]
fn version_unknown_without_a_version() {
    assert!(State::new(Vec::new()).is_version_unknown());
    assert!(state_of(r#"{"version": null}"#).is_version_unknown());
}

#[test]
fn version_known_for_an_ordinary_version() {
    assert!(!state_of(r#"{"version": "1.3.4"}"#).is_version_unknown());
    assert!(!state_of(r#"{"version": ""}"#).is_version_unknown());
    assert!(!state_of(r#"{"version": "UNKNOWN"}"#).is_version_unknown());
}

#[test]
fn values_exposes_everything_that_was_stored() {
    let state = state_of(r#"{"hw_target": "f7", "extra": 1}"#);

    assert_eq!(state.values().len(), 2);
    let extra = state
        .values()
        .iter()
        .find(|(key, _)| key == "extra")
        .map(|(_, value)| value);
    assert_eq!(extra, Some(&JsonValue::Number(JsonNumber::PosInt(1))));
}

#[test]
fn the_first_of_two_equal_keys_is_the_one_read() {
    let state = State::new(vec![
        ("version".to_owned(), JsonValue::String("1".to_owned())),
        ("version".to_owned(), JsonValue::String("2".to_owned())),
    ]);
    assert_eq!(state.version(), Some("1"));
    assert_eq!(state.string("version"), Some("1"));
    assert_eq!(state.string("missing"), None);
}

#[test]
fn reading_json_that_is_not_an_object_yields_nothing() {
    for contents in ["[1, 2]", "\"text\"", "42", "null", "true"] {
        let value: Value = serde_json::from_str(contents).unwrap();
        assert_eq!(State::from_json(to_json(&value)), None, "{contents}");
    }
    let value: Value = serde_json::from_str(r#"{"version": "1.0"}"#).unwrap();
    let state = State::from_json(to_json(&value)).expect("an object");
    assert_eq!(state.version(), Some("1.0"));
}
