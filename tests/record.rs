use cqrs_es::record::{
    aggregate_dir_segments, decimal_string, encode_record, visit_versioned, FieldErrorKind,
    SERIALIZE_KEY_AGGREGATE, SERIALIZE_KEY_EVENT, SERIALIZE_KEY_VERSION,
};
use cqrs_es::{Id, Version};

fn entries_of(line: &str) -> Vec<(String, serde_json::Value)> {
    let value: serde_json::Value = serde_json::from_str(line).unwrap();
    value
        .as_object()
        .unwrap()
        .iter()
        .map(|(k, v)| (k.clone(), v.clone()))
        .collect()
}

fn entry(k: &str, v: u64) -> (String, u64) {
    (k.to_string(), v)
}

#[test]
fn tests_versioned_event_serde() {
    let line = encode_record(Version(123), SERIALIZE_KEY_EVENT, "\"Increased\"");
    assert_eq!(line, "{\"version\":123,\"event\":\"Increased\"}\n");
    let (version, event) = visit_versioned(entries_of(&line), SERIALIZE_KEY_EVENT).unwrap();
    assert_eq!(Version(version.as_u64().unwrap()), Version(123));
    assert_eq!(event, serde_json::Value::String("Increased".to_string()));
}

#[test]
fn tests_versioned_aggregate_serde() {
    let line = encode_record(Version(123), SERIALIZE_KEY_AGGREGATE, "456");
    assert_eq!(line, "{\"version\":123,\"aggregate\":456}\n");
    let (version, aggregate) =
        visit_versioned(entries_of(&line), SERIALIZE_KEY_AGGREGATE).unwrap();
    assert_eq!(Version(version.as_u64().unwrap()), Version(123));
    assert_eq!(aggregate.as_u64(), Some(456));
}

#[test]
fn visit_versioned_takes_fields_in_any_order() {
    let got = visit_versioned(vec![entry("event", 7), entry("version", 9)], "event");
    assert_eq!(got, Ok((9, 7)));
}

#[test]
fn visit_versioned_rejects_bad_records() {
    let dup = visit_versioned(
        vec![entry("version", 1), entry("version", 2), entry("event", 3)],
        "event",
    )
    .unwrap_err();
    assert_eq!(dup.kind, FieldErrorKind::Duplicate);
    assert_eq!(dup.field, SERIALIZE_KEY_VERSION);

    let dup = visit_versioned(vec![entry("event", 1), entry("event", 2)], "event").unwrap_err();
    assert_eq!(dup.kind, FieldErrorKind::Duplicate);
    assert_eq!(dup.field, "event");

    let missing = visit_versioned(vec![entry("event", 1)], "event").unwrap_err();
    assert_eq!(missing.kind, FieldErrorKind::Missing);
    assert_eq!(missing.field, "version");

    let missing = visit_versioned(vec![entry("version", 1)], "event").unwrap_err();
    assert_eq!(missing.kind, FieldErrorKind::Missing);
    assert_eq!(missing.field, "event");

    let unknown = visit_versioned(
        vec![entry("version", 1), entry("extra", 2), entry("event", 3)],
        "event",
    )
    .unwrap_err();
    assert_eq!(unknown.kind, FieldErrorKind::Unknown);
    assert_eq!(unknown.field, "extra");

    let empty = visit_versioned(Vec::<(String, u64)>::new(), "event").unwrap_err();
    assert_eq!(empty.kind, FieldErrorKind::Missing);
    assert_eq!(empty.field, "version");
}

#[test]
fn decimal_forms() {
    assert_eq!(decimal_string(0), "0");
    assert_eq!(decimal_string(7), "7");
    assert_eq!(decimal_string(10), "10");
    assert_eq!(decimal_string(1234567890), "1234567890");
    assert_eq!(decimal_string(u64::MAX), "18446744073709551615");
}

#[test]
fn directory_segments_of_aggregate_names() {
    assert_eq!(aggregate_dir_segments("canister_list"), vec!["canister_list"]);
    assert_eq!(aggregate_dir_segments("seller/stock"), vec!["seller", "stock"]);
    assert_eq!(aggregate_dir_segments("a//b/"), vec!["a", "", "b", ""]);
    assert_eq!(aggregate_dir_segments(""), vec![""]);
}

#[test]
fn id_string_is_hyphenated_lower_case() {
    let id = Id::<u8>::from_u128(0x008044ba_7674_4ff3_a0ae_ef724ddd66a6);
    assert_eq!(id.to_string(), "008044ba-7674-4ff3-a0ae-ef724ddd66a6");
    assert_eq!(id.as_u128(), 0x008044ba_7674_4ff3_a0ae_ef724ddd66a6);
    assert_eq!(Id::<u8>::from_u128(0).to_string(), "00000000-0000-0000-0000-000000000000");
}

#[test]
fn new_ids_are_random_v4_and_distinct() {
    let a = Id::<u8>::new();
    let b = Id::<u8>::new();
    assert!(a != b);
    assert!(a == a.clone());
    let s = a.to_string();
    assert_eq!(s.len(), 36);
    assert_eq!(s.chars().nth(14), Some('4'));
    assert!(matches!(s.chars().nth(19), Some('8' | '9' | 'a' | 'b')));
}
