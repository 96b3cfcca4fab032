use mesh_sim::codec::{decode, encode, share_from_value, share_to_value, DecodeError};
use mesh_sim::share::Share;

fn sample() -> Share {
    Share { from: 1, content: String::from("Share from Node 1"), timestamp: 1700000000 }
}

#[test]
fn encode_writes_the_three_members_in_order() {
    let bytes = encode(&sample());
    assert_eq!(
        String::from_utf8(bytes).unwrap(),
        "{\"from\":1,\"content\":\"Share from Node 1\",\"timestamp\":1700000000}"
    );
}

#[test]
fn decode_reads_back_what_encode_wrote() {
    let s = sample();
    assert_eq!(decode(&encode(&s)), Ok(s));
}

#[test]
fn round_trip_keeps_awkward_content() {
    let s = Share {
        from: usize::MAX,
        content: String::from("quote \" slash \\ newline \n tab \t nul \u{0} snow \u{2603} \u{1F600}"),
        timestamp: u64::MAX,
    };
    assert_eq!(decode(&encode(&s)), Ok(s));
}

#[test]
fn round_trip_keeps_empty_content_and_zeroes() {
    let s = Share { from: 0, content: String::new(), timestamp: 0 };
    assert_eq!(decode(&encode(&s)), Ok(s));
}

#[test]
fn decode_rejects_empty_input() {
    assert_eq!(decode(b""), Err(DecodeError::Malformed));
}

#[test]
fn decode_rejects_every_proper_prefix() {
    let bytes = encode(&sample());
    for n in 0..bytes.len() {
        assert_eq!(decode(&bytes[..n]), Err(DecodeError::Malformed), "prefix of {} bytes", n);
    }
}

#[test]
fn decode_rejects_two_records_in_one_chunk() {
    let mut bytes = encode(&sample());
    bytes.extend(encode(&sample()));
    assert_eq!(decode(&bytes), Err(DecodeError::Malformed));
}

#[test]
fn decode_rejects_bytes_that_are_not_json() {
    assert_eq!(decode(b"hello"), Err(DecodeError::Malformed));
    assert_eq!(decode(&[0xff, 0xfe, 0x00]), Err(DecodeError::Malformed));
    assert_eq!(decode(&[0u8; 1024]), Err(DecodeError::Malformed));
}

#[test]
fn decode_rejects_documents_that_are_not_records() {
    assert_eq!(decode(b"null"), Err(DecodeError::NotRecord));
    assert_eq!(decode(b"17"), Err(DecodeError::NotRecord));
    assert_eq!(decode(b"\"from\""), Err(DecodeError::NotRecord));
    assert_eq!(decode(b"[1,\"x\"]"), Err(DecodeError::NotRecord));
    assert_eq!(decode(b"[1,\"x\",2,3]"), Err(DecodeError::NotRecord));
}

#[test]
fn decode_reports_a_missing_member() {
    assert_eq!(decode(b"{}"), Err(DecodeError::MissingField));
    assert_eq!(decode(b"{\"from\":1,\"content\":\"x\"}"), Err(DecodeError::MissingField));
    assert_eq!(decode(b"{\"from\":1,\"timestamp\":2}"), Err(DecodeError::MissingField));
    assert_eq!(decode(b"{\"content\":\"x\",\"timestamp\":2}"), Err(DecodeError::MissingField));
}

#[test]
fn decode_reports_a_member_of_the_wrong_kind() {
    assert_eq!(
        decode(b"{\"from\":\"1\",\"content\":\"x\",\"timestamp\":2}"),
        Err(DecodeError::WrongType)
    );
    assert_eq!(
        decode(b"{\"from\":-1,\"content\":\"x\",\"timestamp\":2}"),
        Err(DecodeError::WrongType)
    );
    assert_eq!(
        decode(b"{\"from\":1.5,\"content\":\"x\",\"timestamp\":2}"),
        Err(DecodeError::WrongType)
    );
    assert_eq!(
        decode(b"{\"from\":1,\"content\":7,\"timestamp\":2}"),
        Err(DecodeError::WrongType)
    );
    assert_eq!(
        decode(b"{\"from\":1,\"content\":\"x\",\"timestamp\":null}"),
        Err(DecodeError::WrongType)
    );
    assert_eq!(
        decode(b"{\"from\":1,\"content\":\"x\",\"timestamp\":18446744073709551616}"),
        Err(DecodeError::WrongType)
    );
    assert_eq!(decode(b"[1,2,3]"), Err(DecodeError::WrongType));
}

#[test]
fn decode_reports_the_first_member_at_fault() {
    assert_eq!(decode(b"{\"from\":\"1\",\"timestamp\":2}"), Err(DecodeError::WrongType));
    assert_eq!(decode(b"{\"content\":7,\"timestamp\":2}"), Err(DecodeError::MissingField));
}

#[test]
fn decode_takes_members_in_any_order_and_ignores_others() {
    let bytes = b" { \"timestamp\" : 5, \"extra\": [1, {\"from\": 9}], \"content\" : \"hi\", \"from\" : 3 } ";
    assert_eq!(decode(bytes), Ok(Share { from: 3, content: String::from("hi"), timestamp: 5 }));
}

#[test]
fn decode_takes_the_three_values_as_an_array() {
    assert_eq!(
        decode(b"[3,\"hi\",5]"),
        Ok(Share { from: 3, content: String::from("hi"), timestamp: 5 })
    );
}

#[test]
fn share_from_value_reads_a_value_built_by_hand() {
    let mut map = serde_json::Map::new();
    map.insert(String::from("content"), serde_json::Value::from("hi"));
    map.insert(String::from("from"), serde_json::Value::from(3u64));
    map.insert(String::from("timestamp"), serde_json::Value::from(5u64));
    let v = serde_json::Value::Object(map);
    assert_eq!(share_from_value(&v), Ok(Share { from: 3, content: String::from("hi"), timestamp: 5 }));
    assert_eq!(share_from_value(&serde_json::Value::Null), Err(DecodeError::NotRecord));
    assert_eq!(share_from_value(&serde_json::Value::Bool(true)), Err(DecodeError::NotRecord));
}

#[test]
fn share_to_value_builds_the_object() {
    let v = share_to_value(&sample());
    assert!(v.is_object());
    assert_eq!(v.as_object().unwrap().len(), 3);
    assert_eq!(v.get("from").and_then(|x| x.as_u64()), Some(1));
    assert_eq!(v.get("content").and_then(|x| x.as_str()), Some("Share from Node 1"));
    assert_eq!(v.get("timestamp").and_then(|x| x.as_u64()), Some(1700000000));
    let keys: Vec<&String> = v.as_object().unwrap().keys().collect();
    assert_eq!(keys, vec!["from", "content", "timestamp"]);
}
