use aur_updater::state::VersionRecord;

#[test]
fn encodes_the_exact_state_file() {
    let record = VersionRecord { applied_version: b"1.2.0".to_vec() };
    let encoded = record.encode_json();
    assert_eq!(encoded, b"{\n  \"appliedVersion\": \"1.2.0\"\n}".to_vec());
}

#[test]
fn encodes_the_empty_record() {
    let record = VersionRecord::absent();
    assert_eq!(record.applied_version, Vec::<u8>::new());
    assert_eq!(record.encode_json(), b"{\n  \"appliedVersion\": \"\"\n}".to_vec());
}

#[test]
fn escapes_quotes_backslashes_and_controls() {
    let record = VersionRecord { applied_version: b"a\"b\\c\nd".to_vec() };
    let encoded = String::from_utf8(record.encode_json()).unwrap();
    assert_eq!(encoded, "{\n  \"appliedVersion\": \"a\\\"b\\\\c\\u000ad\"\n}");
}

#[test]
fn encoded_record_round_trips_through_a_json_parser() {
    for tag in ["1.2.0", "", "odd \"quoted\" tag", "tab\tand\nnewline", "back\\slash"] {
        let record = VersionRecord { applied_version: tag.as_bytes().to_vec() };
        let text = String::from_utf8(record.encode_json()).unwrap();
        let value: serde_json::Value = serde_json::from_str(&text).unwrap();
        assert_eq!(value["appliedVersion"].as_str().unwrap(), tag);
    }
}
