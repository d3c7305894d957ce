use ttp_core::{DataKind, DataTypes, DataValue};

#[test]
fn number_payload_is_eight_big_endian_bytes() {
    assert_eq!(DataValue::Number(1).to_bytes(), vec![0, 0, 0, 0, 0, 0, 0, 1]);
    assert_eq!(
        DataValue::Number(-2).to_bytes(),
        vec![0xff, 0xff, 0xff, 0xff, 0xff, 0xff, 0xff, 0xfe]
    );
}

#[test]
fn text_payload_is_its_utf8() {
    assert_eq!(DataValue::Str("hi".to_string()).to_bytes(), vec![b'h', b'i']);
    assert_eq!(
        DataValue::Str("é".to_string()).to_bytes(),
        vec![0xc3, 0xa9]
    );
}

#[test]
fn booleans_and_null_have_no_payload() {
    assert!(DataValue::BoolTrue.to_bytes().is_empty());
    assert!(DataValue::Bool(false).to_bytes().is_empty());
    assert!(DataValue::Null.to_bytes().is_empty());
}

#[test]
fn array_encoding_is_exact() {
    let v = DataValue::Array(vec![DataValue::Number(5), DataValue::BoolTrue]);
    assert_eq!(
        v.to_bytes(),
        vec![0, 2, 0x03, 0, 8, 0, 0, 0, 0, 0, 0, 0, 5, 0x01]
    );
}

#[test]
fn container_encoding_is_exact() {
    let v = DataValue::Container(vec![
        (DataTypes::user_id, DataValue::Number(7)),
        (DataTypes::enabled, DataValue::BoolFalse),
        (DataTypes::username, DataValue::Str("a".to_string())),
        (DataTypes::message, DataValue::Null),
    ]);
    let mut expected = vec![0, 4, 0x03, 0, 8, DataTypes::user_id.as_number()];
    expected.extend_from_slice(&[0, 0, 0, 0, 0, 0, 0, 7]);
    expected.extend_from_slice(&[0x02, DataTypes::enabled.as_number()]);
    expected.extend_from_slice(&[0x04, 0, 1, DataTypes::username.as_number(), b'a']);
    expected.extend_from_slice(&[0x07, 0, 0, DataTypes::message.as_number()]);
    assert_eq!(v.to_bytes(), expected);
}

#[test]
fn container_roundtrip_keeps_every_entry() {
    let v = DataValue::Container(vec![
        (DataTypes::username, DataValue::Str("bob".to_string())),
        (DataTypes::user_id, DataValue::Number(-42)),
        (DataTypes::enabled, DataValue::BoolTrue),
        (
            DataTypes::user_ids,
            DataValue::Array(vec![DataValue::Number(1), DataValue::Number(2)]),
        ),
        (
            DataTypes::user,
            DataValue::Container(vec![(DataTypes::username, DataValue::Str("x".to_string()))]),
        ),
        (DataTypes::message, DataValue::Null),
    ]);
    let back = DataValue::from_bytes(&v.to_bytes()).expect("decodes");
    assert_eq!(back, v);
}

#[test]
fn array_roundtrip_when_not_read_as_container() {
    let v = DataValue::Array(vec![DataValue::Number(5)]);
    let back = DataValue::from_bytes(&v.to_bytes()).expect("decodes");
    assert_eq!(back, v);
}

#[test]
fn empty_array_reads_back_as_empty_container() {
    let v = DataValue::Array(vec![]);
    assert_eq!(v.to_bytes(), vec![0, 0]);
    assert_eq!(
        DataValue::from_bytes(&v.to_bytes()),
        Some(DataValue::Container(vec![]))
    );
}

#[test]
fn decoding_rejects_trailing_and_short_input() {
    let mut bytes = DataValue::Container(vec![(DataTypes::user_id, DataValue::Number(1))]).to_bytes();
    bytes.push(0);
    assert_eq!(DataValue::from_bytes(&bytes), None);
    assert_eq!(DataValue::from_bytes(&[0]), None);
    assert_eq!(DataValue::from_bytes(&[]), None);
}

#[test]
fn decoding_rejects_invalid_utf8_text() {
    let bytes = vec![0, 1, 0x04, 0, 1, DataTypes::username.as_number(), 0xff];
    assert_eq!(DataValue::from_bytes(&bytes), None);
}

#[test]
fn decoding_reads_utf8_text() {
    let bytes = vec![0, 1, 0x04, 0, 2, DataTypes::username.as_number(), 0xc3, 0xa9];
    assert_eq!(
        DataValue::from_bytes(&bytes),
        Some(DataValue::Container(vec![(
            DataTypes::username,
            DataValue::Str("é".to_string())
        )]))
    );
}

#[test]
fn decoded_booleans_are_spelled_as_markers() {
    let bytes = DataValue::Container(vec![(DataTypes::enabled, DataValue::Bool(true))]).to_bytes();
    match DataValue::from_bytes(&bytes) {
        Some(DataValue::Container(es)) => assert!(matches!(es[0].1, DataValue::BoolTrue)),
        other => panic!("unexpected {:?}", other),
    }
}

#[test]
fn oversized_payload_writes_nothing() {
    let long = "x".repeat(70_000);
    let v = DataValue::Container(vec![(DataTypes::message, DataValue::Str(long))]);
    assert!(v.to_bytes().is_empty());
}

#[test]
fn boolean_spellings_compare_equal() {
    assert_eq!(DataValue::Bool(true), DataValue::BoolTrue);
    assert_eq!(DataValue::BoolFalse, DataValue::Bool(false));
    assert_ne!(DataValue::Bool(true), DataValue::BoolFalse);
    assert_ne!(DataValue::Number(1), DataValue::Str("1".to_string()));
    assert_eq!(
        DataValue::Array(vec![DataValue::BoolTrue]),
        DataValue::Array(vec![DataValue::Bool(true)])
    );
}

#[test]
fn kind_follows_the_variant() {
    assert_eq!(DataValue::BoolTrue.kind(), DataKind::Bool);
    assert_eq!(DataValue::Number(3).kind(), DataKind::Number);
    assert_eq!(DataValue::Str(String::new()).kind(), DataKind::Str);
    assert_eq!(DataValue::Null.kind(), DataKind::Null);
    assert_eq!(DataValue::Container(vec![]).kind(), DataKind::Container);
    assert_eq!(
        DataValue::Array(vec![]).kind(),
        DataKind::Array(Box::new(DataKind::Null))
    );
    assert_eq!(
        DataValue::Array(vec![DataValue::Str("a".to_string()), DataValue::Number(1)]).kind(),
        DataKind::Array(Box::new(DataKind::Str))
    );
}

#[test]
fn accessors_pick_their_variant() {
    assert_eq!(DataValue::BoolTrue.as_bool(), Some(true));
    assert_eq!(DataValue::Bool(false).as_bool(), Some(false));
    assert_eq!(DataValue::Null.as_bool(), None);
    assert_eq!(DataValue::Str("x".to_string()).as_str(), Some("x"));
    assert_eq!(DataValue::Number(1).as_str(), None);
    assert_eq!(DataValue::Str("x".to_string()).as_string(), Some("x".to_string()));
    assert_eq!(DataValue::Number(9).as_number(), Some(9));
    assert_eq!(DataValue::Str("9".to_string()).as_number(), None);
    assert_eq!(
        DataValue::Array(vec![DataValue::Null]).as_array(),
        Some(vec![DataValue::Null])
    );
    assert_eq!(DataValue::Null.as_array(), None);
    let c = vec![(DataTypes::user_id, DataValue::Number(1))];
    assert_eq!(DataValue::Container(c.clone()).as_container(), Some(c));
    assert_eq!(DataValue::Null.as_container(), None);
}

#[test]
fn as_map_sorts_by_key_and_keeps_the_last_value() {
    let v = DataValue::Container(vec![
        (DataTypes::username, DataValue::Str("a".to_string())),
        (DataTypes::user_id, DataValue::Number(1)),
        (DataTypes::username, DataValue::Str("b".to_string())),
    ]);
    let mut expected = vec![
        (DataTypes::username, DataValue::Str("b".to_string())),
        (DataTypes::user_id, DataValue::Number(1)),
    ];
    expected.sort_by_key(|e| e.0.as_number());
    assert_eq!(v.as_map(), Some(expected));
    assert_eq!(DataValue::Number(1).as_map(), None);
}

#[test]
fn container_from_map_wraps_the_entries() {
    let m = vec![(DataTypes::user_id, DataValue::Number(1))];
    assert_eq!(
        DataValue::container_from_map(&m),
        DataValue::Container(m.clone())
    );
}

#[test]
fn base64_of_a_number_is_exact_and_reads_back() {
    let v = DataValue::Container(vec![(DataTypes::user_id, DataValue::Number(1))]);
    let text = v.to_base64();
    assert_eq!(text, "AAEDAAgLAAAAAAAAAAE=");
    assert_eq!(DataValue::from_base64(&text), Some(v));
}

#[test]
fn from_base64_rejects_bad_text() {
    assert_eq!(DataValue::from_base64("!!!"), None);
    assert_eq!(DataValue::from_base64(""), None);
}

#[test]
fn clone_keeps_the_value() {
    let v = DataValue::Array(vec![DataValue::Str("s".to_string()), DataValue::BoolFalse]);
    assert_eq!(v.clone(), v);
}

#[test]
fn trailing_bytes_after_a_container_are_refused() {
    let v = DataValue::Container(vec![(DataTypes::user_id, DataValue::Number(3))]);
    for x in [0u8, 1, 0xff] {
        let mut bytes = v.to_bytes();
        bytes.push(x);
        assert_eq!(DataValue::from_bytes(&bytes), None);
    }
    let mut empty = DataValue::Container(vec![]).to_bytes();
    empty.extend_from_slice(&[7, 7]);
    assert_eq!(DataValue::from_bytes(&empty), None);
}

#[test]
fn keys_order_by_declaration() {
    let mut keys = vec![DataTypes::user_id, DataTypes::error_type, DataTypes::username];
    keys.sort();
    assert_eq!(keys, vec![DataTypes::error_type, DataTypes::user_id, DataTypes::username]);
    assert!(DataTypes::error_type < DataTypes::user_id);
    assert_eq!(
        DataTypes::username.partial_cmp(&DataTypes::user_id),
        Some(std::cmp::Ordering::Greater)
    );
    assert_eq!(
        DataTypes::user_id.partial_cmp(&DataTypes::user_id),
        Some(std::cmp::Ordering::Equal)
    );
}
