use ttp_core::inspect::{
    ascii_column_char, build_message, byte_hex, byte_role, flagged_byte_role, hex_input_bytes,
    hex_list, offset_label, parse_hex_input, parse_value_for_key, parsed_byte_role, ByteRole,
    HexInputError,
};
use ttp_core::text::{parse_i64, parse_unsigned, split_commas, trim_chars};
use ttp_core::{CommunicationType, CommunicationValue, DataTypes, DataValue};

fn chars(s: &str) -> Vec<char> {
    s.chars().collect()
}

#[test]
fn numbers_parse_like_from_str() {
    assert_eq!(parse_i64(&chars("42")), Some(42));
    assert_eq!(parse_i64(&chars("+7")), Some(7));
    assert_eq!(parse_i64(&chars("-9223372036854775808")), Some(i64::MIN));
    assert_eq!(parse_i64(&chars("9223372036854775807")), Some(i64::MAX));
    assert_eq!(parse_i64(&chars("9223372036854775808")), None);
    assert_eq!(parse_i64(&chars("")), None);
    assert_eq!(parse_i64(&chars("-")), None);
    assert_eq!(parse_i64(&chars(" 1")), None);
    assert_eq!(parse_i64(&chars("1a")), None);
    assert_eq!(parse_unsigned(&chars("4294967295"), u32::MAX as u64), Some(4294967295));
    assert_eq!(parse_unsigned(&chars("4294967296"), u32::MAX as u64), None);
    assert_eq!(parse_unsigned(&chars("-1"), u64::MAX), None);
}

#[test]
fn trim_and_split_follow_str() {
    assert_eq!(trim_chars(&chars("  a b \t")), chars("a b"));
    assert_eq!(trim_chars(&chars("\u{3000}x\u{a0}")), chars("x"));
    let pieces = split_commas(&chars("a,,b,"));
    assert_eq!(pieces, vec![chars("a"), chars(""), chars("b"), chars("")]);
}

#[test]
fn values_are_read_by_the_key_kind() {
    assert_eq!(parse_value_for_key(&DataTypes::user_id, "12"), Some(DataValue::Number(12)));
    assert_eq!(parse_value_for_key(&DataTypes::user_id, "x"), None);
    assert_eq!(
        parse_value_for_key(&DataTypes::username, " bob "),
        Some(DataValue::Str(" bob ".to_string()))
    );
    assert_eq!(parse_value_for_key(&DataTypes::enabled, "TRUE"), Some(DataValue::Bool(true)));
    assert_eq!(parse_value_for_key(&DataTypes::enabled, "0"), Some(DataValue::Bool(false)));
    assert_eq!(parse_value_for_key(&DataTypes::enabled, "yes"), None);
    assert_eq!(parse_value_for_key(&DataTypes::error_protocol, "anything"), Some(DataValue::Null));
    assert_eq!(
        parse_value_for_key(&DataTypes::user_ids, "1, 2 ,3"),
        Some(DataValue::Array(vec![
            DataValue::Number(1),
            DataValue::Number(2),
            DataValue::Number(3)
        ]))
    );
    assert_eq!(parse_value_for_key(&DataTypes::user_ids, "1,,2"), None);
    assert_eq!(
        parse_value_for_key(&DataTypes::user_states, " a , b"),
        Some(DataValue::Array(vec![
            DataValue::Str("a".to_string()),
            DataValue::Str("b".to_string())
        ]))
    );
    assert_eq!(parse_value_for_key(&DataTypes::matches, "x"), None);
    assert_eq!(parse_value_for_key(&DataTypes::user, "x"), None);
}

#[test]
fn build_message_reads_the_form_fields() {
    let entries = vec![(DataTypes::user_id, DataValue::Number(3))];
    let cv = build_message(
        CommunicationType::pong,
        1234,
        "7",
        "8",
        "not a number",
        &entries,
        Some(DataTypes::username),
        "eve",
    );
    assert_eq!(cv.get_type(), CommunicationType::pong);
    assert_eq!(cv.get_id(), 7);
    assert_eq!(cv.get_sender(), 8);
    assert_eq!(cv.get_receiver(), 0);
    assert_eq!(cv.get_data(DataTypes::user_id), &DataValue::Number(3));
    assert_eq!(cv.get_data(DataTypes::username), &DataValue::Str("eve".to_string()));
}

#[test]
fn build_message_skips_an_entry_that_does_not_parse() {
    let cv = build_message(
        CommunicationType::ping,
        1234,
        "1",
        "0",
        "0",
        &vec![],
        Some(DataTypes::user_id),
        "abc",
    );
    assert!(cv.get_data_container().is_empty());
}

#[test]
fn hex_input_is_read_in_pairs() {
    assert_eq!(hex_input_bytes("[1c, 20, 9]"), vec![0x1c, 0x20]);
    assert_eq!(hex_input_bytes("aBcD"), vec![0xab, 0xcd]);
    assert!(matches!(parse_hex_input("abc"), Err(HexInputError::IncompleteByte)));
    assert!(matches!(parse_hex_input("[ , ]"), Err(HexInputError::NoBytes)));
    assert!(matches!(parse_hex_input("00 00"), Err(HexInputError::NotAMessage)));
    let cv = parse_hex_input("[00, 00, 00, 04, 30, 00, 00, 00]").expect("a message");
    assert_eq!(cv.get_type(), CommunicationType::ping);
}

#[test]
fn hex_input_errors_have_their_text() {
    assert_eq!(
        HexInputError::IncompleteByte.message(),
        "Incomplete byte (odd number of hex digits)"
    );
    assert_eq!(HexInputError::NoBytes.message(), "No bytes to parse");
    assert_eq!(HexInputError::NotAMessage.message(), "Failed to parse CommunicationValue");
}

#[test]
fn byte_roles_follow_the_layout() {
    assert_eq!(byte_role(0, true, true, true), ByteRole::Type);
    assert_eq!(byte_role(1, true, true, true), ByteRole::Flags);
    assert_eq!(byte_role(5, true, true, true), ByteRole::Id);
    assert_eq!(byte_role(6, true, true, true), ByteRole::Sender);
    assert_eq!(byte_role(12, true, true, true), ByteRole::Receiver);
    assert_eq!(byte_role(18, true, true, true), ByteRole::DataLength);
    assert_eq!(byte_role(22, true, true, true), ByteRole::Data);
    assert_eq!(byte_role(2, false, false, true), ByteRole::Receiver);
    assert_eq!(byte_role(2, false, false, false), ByteRole::DataLength);
    assert_eq!(byte_role(6, false, false, false), ByteRole::Data);
}

#[test]
fn parsed_and_flagged_roles() {
    let cv = CommunicationValue::new(CommunicationType::ping).expect("random id").with_id(0).with_sender(1);
    assert_eq!(parsed_byte_role(2, Some(&cv)), ByteRole::Sender);
    assert_eq!(parsed_byte_role(2, None), ByteRole::Unknown);
    assert_eq!(parsed_byte_role(0, None), ByteRole::Type);
    assert_eq!(flagged_byte_role(2, &[0, 0b1000_0000]), ByteRole::Sender);
    assert_eq!(flagged_byte_role(2, &[0, 0b0010_0000]), ByteRole::Id);
    assert_eq!(flagged_byte_role(2, &[0, 0b0100_0000]), ByteRole::Receiver);
    assert_eq!(flagged_byte_role(2, &[0]), ByteRole::DataLength);
}

#[test]
fn hex_texts_are_exact() {
    assert_eq!(hex_list(&[0x1c, 0x00, 0xff]), "[1c, 00, ff]");
    assert_eq!(hex_list(&[]), "[]");
    assert_eq!(byte_hex(0x0a), "0a");
    assert_eq!(offset_label(0), "0000");
    assert_eq!(offset_label(0x1f0), "01F0");
    assert_eq!(offset_label(0x12345), "12345");
    assert_eq!(ascii_column_char(b'A'), 'A');
    assert_eq!(ascii_column_char(b' '), ' ');
    assert_eq!(ascii_column_char(0x7f), '.');
    assert_eq!(ascii_column_char(0x0a), '.');
}

#[test]
fn build_message_id_zero_means_none_and_bad_text_takes_the_fallback() {
    let none = build_message(CommunicationType::ping, 99, "0", "0", "0", &vec![], None, "");
    assert_eq!(none.get_id(), 0);
    assert_eq!(none.to_bytes(), vec![0, 0, 0, 4, 0x30, 0, 0, 0]);
    let fallback = build_message(CommunicationType::ping, 99, "x", "0", "0", &vec![], None, "");
    assert_eq!(fallback.get_id(), 99);
}

#[test]
fn typed_booleans_are_spelled_bool() {
    assert!(matches!(
        parse_value_for_key(&DataTypes::enabled, "true"),
        Some(DataValue::Bool(true))
    ));
    assert!(matches!(
        parse_value_for_key(&DataTypes::enabled, "FALSE"),
        Some(DataValue::Bool(false))
    ));
}
