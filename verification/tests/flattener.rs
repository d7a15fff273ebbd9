use std::collections::BTreeMap;

use string_templater::encode_json_to_hashmap;
use string_templater::flatten;
use string_templater::generate;
use string_templater::parse_to_hashmap;
use string_templater::Dictionary;
use string_templater::StringTemplaterOptions;
use string_templater::StructuredValue;
use string_templater::WrapOverride;

fn strict() -> StringTemplaterOptions<WrapOverride, WrapOverride> {
    StringTemplaterOptions {
        safe_parse: false,
        display_missing_keys: false,
        override_missing_keys: None,
        display_missing_translations: false,
        override_missing_translations: None,
    }
}

#[test]
fn test_flatten_round_trip() {
    // {"a": [1, {"b": "x"}]} flattens to {"a.0": "1", "a.1.b": "x"}.
    let value = StructuredValue::Object(vec![(
        "a".to_string(),
        StructuredValue::Array(vec![
            StructuredValue::Number("1".to_string()),
            StructuredValue::Object(vec![("b".to_string(), StructuredValue::Text("x".to_string()))]),
        ]),
    )]);
    let mut map = Dictionary::new();
    flatten("", &value, &mut map);
    assert_eq!(map.get(&"a.0".to_string()), Some("1".to_string()));
    assert_eq!(map.get(&"a.1.b".to_string()), Some("x".to_string()));
    assert_eq!(map.get(&"a".to_string()), None);
}

#[test]
fn test_flatten_scalars() {
    let value = StructuredValue::Object(vec![
        ("yes".to_string(), StructuredValue::Bool(true)),
        ("no".to_string(), StructuredValue::Bool(false)),
        ("nothing".to_string(), StructuredValue::Null),
        ("text".to_string(), StructuredValue::Text("plain".to_string())),
        ("num".to_string(), StructuredValue::Number("2.5".to_string())),
    ]);
    let mut map = Dictionary::new();
    flatten("", &value, &mut map);
    assert_eq!(map.get(&"yes".to_string()), Some("true".to_string()));
    assert_eq!(map.get(&"no".to_string()), Some("false".to_string()));
    assert_eq!(map.get(&"nothing".to_string()), Some("null".to_string()));
    assert_eq!(map.get(&"text".to_string()), Some("plain".to_string()));
    assert_eq!(map.get(&"num".to_string()), Some("2.5".to_string()));
}

#[test]
fn test_flatten_root_array_paths() {
    // A root-level array keeps the dot before the index: paths ".0", ".1".
    let value = StructuredValue::Array(vec![
        StructuredValue::Bool(true),
        StructuredValue::Null,
        StructuredValue::Text("s".to_string()),
    ]);
    let mut map = Dictionary::new();
    flatten("", &value, &mut map);
    assert_eq!(map.get(&".0".to_string()), Some("true".to_string()));
    assert_eq!(map.get(&".1".to_string()), Some("null".to_string()));
    assert_eq!(map.get(&".2".to_string()), Some("s".to_string()));
}

#[test]
fn test_flatten_two_digit_indices() {
    let items: Vec<StructuredValue> = (0..12).map(|i| StructuredValue::Number(i.to_string())).collect();
    let value = StructuredValue::Object(vec![("xs".to_string(), StructuredValue::Array(items))]);
    let mut map = Dictionary::new();
    flatten("", &value, &mut map);
    assert_eq!(map.get(&"xs.10".to_string()), Some("10".to_string()));
    assert_eq!(map.get(&"xs.11".to_string()), Some("11".to_string()));
}

#[test]
fn test_encode_json_to_hashmap() {
    let mut inner = serde_json::Map::new();
    inner.insert("b".to_string(), serde_json::Value::String("x".to_string()));
    let mut root = serde_json::Map::new();
    root.insert(
        "a".to_string(),
        serde_json::Value::Array(vec![
            serde_json::Value::Number(serde_json::Number::from(1)),
            serde_json::Value::Object(inner),
        ]),
    );
    let map = encode_json_to_hashmap(&serde_json::Value::Object(root));
    assert_eq!(map.get(&"a.0".to_string()), Some("1".to_string()));
    assert_eq!(map.get(&"a.1.b".to_string()), Some("x".to_string()));
}

#[test]
fn test_parse_to_hashmap() {
    let mut value: BTreeMap<String, Vec<String>> = BTreeMap::new();
    value.insert("childs".to_string(), vec!["Janne".to_string(), "Alice".to_string()]);
    let map = parse_to_hashmap(&value).unwrap();
    assert_eq!(map.get(&"childs.0".to_string()), Some("Janne".to_string()));
    assert_eq!(map.get(&"childs.1".to_string()), Some("Alice".to_string()));
}

#[test]
fn test_parse_then_generate() {
    let mut value: BTreeMap<String, String> = BTreeMap::new();
    value.insert("name".to_string(), "John".to_string());
    let data = parse_to_hashmap(&value).unwrap();
    let tr = Dictionary::new();
    let out = generate("Hello {{name}}.", &tr, &data, &strict());
    assert_eq!(out.unwrap(), "Hello John.".to_string());
}

#[test]
fn test_dictionary_last_insert_wins() {
    let mut d = Dictionary::new();
    d.insert("k".to_string(), "first".to_string());
    d.insert("other".to_string(), "kept".to_string());
    d.insert("k".to_string(), "second".to_string());
    assert_eq!(d.get(&"k".to_string()), Some("second".to_string()));
    assert_eq!(d.get(&"other".to_string()), Some("kept".to_string()));
    assert_eq!(d.get(&"absent".to_string()), None);
}

#[test]
fn test_parse_to_hashmap_serialize_error() {
    // serde_json refuses a map whose keys are not strings: the one failure
    // path of the flattener's entry point.
    let mut value: BTreeMap<(u8, u8), String> = BTreeMap::new();
    value.insert((1, 2), "x".to_string());
    let result = parse_to_hashmap(&value);
    match result {
        Err(string_templater::StringTemplaterError::SerializeError(_)) => {},
        other => panic!("expected a serialize error, got {:?}", other),
    }
}
