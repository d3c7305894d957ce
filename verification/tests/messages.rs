use ttp_core::transport::{
    close_error, close_frame, decode_frame_body, frame_header, outgoing_frame, receive_outcome,
    retry_delay_ms, ConnectionState, FrameHeader, ReceivedFrame, CLOSE_FRAME_LEN,
    MAX_MESSAGE_SIZE,
};
use ttp_core::{format_cv, CommunicationError, CommunicationType, CommunicationValue, DataTypes, DataValue};

#[test]
fn new_message_has_type_and_nothing_else() {
    let cv = CommunicationValue::new(CommunicationType::ping).expect("random id");
    assert_eq!(cv.get_type(), CommunicationType::ping);
    assert!(cv.is_type(CommunicationType::ping));
    assert!(!cv.is_type(CommunicationType::pong));
    assert_eq!(cv.get_sender(), 0);
    assert_eq!(cv.get_receiver(), 0);
    assert!(cv.get_data_container().is_empty());
    assert!(ttp_core::rand_u32().is_some());
}

#[test]
fn builders_set_their_field() {
    let cv = CommunicationValue::new(CommunicationType::pong).expect("random id")
        .with_id(9)
        .with_sender(10)
        .with_receiver(11);
    assert_eq!(cv.get_id(), 9);
    assert_eq!(cv.get_sender(), 10);
    assert_eq!(cv.get_receiver(), 11);
}

#[test]
fn add_data_keeps_one_entry_per_key_in_key_order() {
    let cv = CommunicationValue::new(CommunicationType::message).expect("random id")
        .add_data(DataTypes::username, DataValue::Str("a".to_string()))
        .add_data(DataTypes::user_id, DataValue::Number(1))
        .add_data(DataTypes::username, DataValue::Str("b".to_string()));
    let keys: Vec<DataTypes> = cv.get_data_container().iter().map(|e| e.0).collect();
    assert_eq!(keys, vec![DataTypes::user_id, DataTypes::username]);
    assert_eq!(cv.get_data(DataTypes::username), &DataValue::Str("b".to_string()));
    assert_eq!(cv.get_data(DataTypes::user_id), &DataValue::Number(1));
}

#[test]
fn missing_data_reads_as_null() {
    let cv = CommunicationValue::new(CommunicationType::message).expect("random id");
    assert_eq!(cv.get_data(DataTypes::call_id), &DataValue::Null);
}

#[test]
fn bare_message_bytes_are_exact() {
    let cv = CommunicationValue::new(CommunicationType::ping).expect("random id").with_id(0);
    assert_eq!(cv.to_bytes(), vec![0, 0, 0, 4, 48, 0, 0, 0]);
}

#[test]
fn message_with_fields_bytes_are_exact() {
    let cv = CommunicationValue::new(CommunicationType::pong).expect("random id")
        .with_id(1)
        .with_sender(2)
        .with_receiver(3)
        .add_data(DataTypes::enabled, DataValue::BoolTrue);
    let expected = vec![
        0, 0, 0, 22, 49, 0b111, 0, 0, 0, 1, 0, 0, 0, 0, 0, 2, 0, 0, 0, 0, 0, 3, 0, 1, 0x01, 36,
    ];
    assert_eq!(cv.to_bytes(), expected);
}

#[test]
fn full_message_roundtrip() {
    let cv = CommunicationValue::new(CommunicationType::message_send).expect("random id")
        .with_id(999)
        .with_sender(111)
        .with_receiver(222)
        .add_data(DataTypes::username, DataValue::Str("charlie".to_string()))
        .add_data(DataTypes::user_id, DataValue::Number(42))
        .add_data(DataTypes::enabled, DataValue::Bool(true))
        .add_data(
            DataTypes::matches,
            DataValue::Array(vec![
                DataValue::Container(vec![(DataTypes::username, DataValue::Str("x".to_string()))]),
                DataValue::Container(vec![]),
            ]),
        );
    let back = CommunicationValue::from_bytes(&cv.to_bytes()).expect("decodes");
    assert_eq!(back, cv);
    assert_eq!(back.to_bytes(), cv.to_bytes());
}

#[test]
fn sender_keeps_its_low_48_bits() {
    let cv = CommunicationValue::new(CommunicationType::ping).expect("random id")
        .with_id(0)
        .with_sender(0x0001_0000_0000_0005);
    let back = CommunicationValue::from_bytes(&cv.to_bytes()).expect("decodes");
    assert_eq!(back.get_sender(), 5);
}

#[test]
fn from_bytes_rejects_short_and_bad_frames() {
    assert!(CommunicationValue::from_bytes(&[0, 0, 0]).is_none());
    assert!(CommunicationValue::from_bytes(&[0, 0, 0, 0]).is_none());
    assert!(CommunicationValue::from_bytes(&[0, 0, 0, 2, 48, 0]).is_none());
    // the id flag promises four bytes that are not there
    assert!(CommunicationValue::from_bytes(&[0, 0, 0, 4, 48, 4, 0, 0]).is_none());
}

#[test]
fn from_bytes_ignores_bytes_after_the_frame() {
    let back = CommunicationValue::from_bytes(&[0, 0, 0, 4, 48, 0, 0, 0, 9, 9]).expect("decodes");
    assert_eq!(back.get_type(), CommunicationType::ping);
    assert_eq!(back.get_id(), 0);
}

#[test]
fn format_cv_is_exact() {
    let cv = CommunicationValue::new(CommunicationType::ping).expect("random id")
        .with_id(5)
        .with_sender(7)
        .add_data(DataTypes::user_ids, DataValue::Array(vec![DataValue::Number(1)]))
        .add_data(DataTypes::user_id, DataValue::Number(-3));
    let expected = "CommunicationValue {\n  type: ping\n  id: 5\n  sender: 7\n  data: {\n    user_id: -3\n    user_ids: [\n      1\n  ]\n  }\n}";
    assert_eq!(format_cv(&cv), expected);
}

#[test]
fn format_data_value_nests_containers() {
    let v = DataValue::Container(vec![
        (DataTypes::username, DataValue::Str("a".to_string())),
        (DataTypes::enabled, DataValue::BoolFalse),
    ]);
    assert_eq!(
        ttp_core::logger::format_data_value(&v, 1),
        "{\n    username: \"a\"\n    enabled: false\n}"
    );
    assert_eq!(ttp_core::logger::format_data_value(&DataValue::Array(vec![]), 1), "[]");
    assert_eq!(ttp_core::logger::format_data_value(&DataValue::Null, 1), "null");
}

#[test]
fn outgoing_frame_prefixes_the_length() {
    let cv = CommunicationValue::new(CommunicationType::ping).expect("random id").with_id(0);
    let frame = outgoing_frame(&cv).expect("fits");
    assert_eq!(frame, vec![0, 0, 0, 8, 0, 0, 0, 4, 48, 0, 0, 0]);
    assert_eq!(frame_header(&frame[0..4]), FrameHeader::Body(8));
    let back = decode_frame_body(&frame[4..]).expect("decodes");
    assert_eq!(back, cv);
}

#[test]
fn close_frame_is_all_ones() {
    assert_eq!(close_frame(), vec![0xff, 0xff, 0xff, 0xff]);
    assert_eq!(frame_header(&close_frame()), FrameHeader::Close);
    assert_eq!(CLOSE_FRAME_LEN, u32::MAX);
}

#[test]
fn frame_header_refuses_large_bodies() {
    let too_large = (MAX_MESSAGE_SIZE as u32 + 1).to_be_bytes();
    assert_eq!(frame_header(&too_large), FrameHeader::TooLarge);
    let largest = (MAX_MESSAGE_SIZE as u32).to_be_bytes();
    assert_eq!(frame_header(&largest), FrameHeader::Body(MAX_MESSAGE_SIZE as usize));
}

#[test]
fn decode_frame_body_reports_garbage() {
    assert!(matches!(
        decode_frame_body(&[1, 2, 3]),
        Err(CommunicationError::ParseCommunicationValue)
    ));
}

#[test]
fn read_errors_close_the_stream() {
    assert!(matches!(
        close_error(CommunicationError::ConnectionError("x".to_string())),
        CommunicationError::StreamClosed
    ));
    assert!(matches!(
        close_error(CommunicationError::ReadExactError("x".to_string())),
        CommunicationError::StreamClosed
    ));
    assert!(matches!(
        close_error(CommunicationError::ClosedError("x".to_string())),
        CommunicationError::StreamClosed
    ));
    assert!(matches!(
        close_error(CommunicationError::MessageTooLarge),
        CommunicationError::MessageTooLarge
    ));
}

#[test]
fn receive_outcome_goes_on_only_for_messages() {
    let msg: Result<ReceivedFrame, CommunicationError> =
        Ok(ReceivedFrame::Message(CommunicationValue::new(CommunicationType::ping).expect("random id")));
    assert!(receive_outcome(&msg).is_none());
    let closed: Result<ReceivedFrame, CommunicationError> = Ok(ReceivedFrame::ClosedByPeer);
    assert!(matches!(receive_outcome(&closed), Some(CommunicationError::StreamClosed)));
    let failed: Result<ReceivedFrame, CommunicationError> = Err(CommunicationError::StreamError);
    assert!(matches!(receive_outcome(&failed), Some(CommunicationError::StreamError)));
}

#[test]
fn retries_back_off_then_give_up() {
    assert_eq!(retry_delay_ms(1), Some(20));
    assert_eq!(retry_delay_ms(2), Some(40));
    assert_eq!(retry_delay_ms(3), None);
    assert_eq!(retry_delay_ms(7), None);
}

#[test]
fn first_close_reason_is_kept() {
    let mut state = ConnectionState::new();
    assert!(state.is_open());
    assert!(state.send_refusal().is_none());
    assert!(state.receive_refusal().is_none());
    assert!(state.close(Some(CommunicationError::MessageTooLarge)));
    assert!(!state.close(Some(CommunicationError::StreamError)));
    assert!(state.is_closed());
    assert!(matches!(state.close_reason(), Some(CommunicationError::MessageTooLarge)));
    assert!(matches!(state.send_refusal(), Some(CommunicationError::MessageTooLarge)));
}

#[test]
fn closing_without_reason_uses_defaults() {
    let mut state = ConnectionState::new();
    state.close(None);
    assert!(state.close_reason().is_none());
    assert!(matches!(state.send_refusal(), Some(CommunicationError::UseAfterClosed)));
    assert!(matches!(state.receive_refusal(), Some(CommunicationError::StreamClosed)));
    assert!(matches!(state.lost_channel_error(), CommunicationError::StreamClosed));
}

#[test]
fn new_with_id_sets_only_type_and_id() {
    let cv = CommunicationValue::new_with_id(CommunicationType::pong, 77);
    assert_eq!(cv.get_id(), 77);
    assert_eq!(cv.get_type(), CommunicationType::pong);
    assert_eq!(cv.get_sender(), 0);
    assert_eq!(cv.get_receiver(), 0);
    assert!(cv.get_data_container().is_empty());
}

#[test]
fn format_data_value_at_indent_zero_and_two() {
    assert_eq!(ttp_core::logger::format_data_value(&DataValue::Number(5), 0), "5");
    assert_eq!(ttp_core::logger::format_data_value(&DataValue::Array(vec![]), 0), "[]");
    assert_eq!(
        ttp_core::logger::format_data_value(
            &DataValue::Array(vec![DataValue::Number(1), DataValue::Number(2)]),
            2
        ),
        "[\n      1\n      2\n  ]"
    );
}

#[test]
fn decoded_message_booleans_are_spelled_as_markers() {
    let cv = CommunicationValue::new_with_id(CommunicationType::update, 0)
        .add_data(DataTypes::enabled, DataValue::Bool(true))
        .add_data(DataTypes::user_ids, DataValue::Array(vec![DataValue::Bool(false)]));
    let back = CommunicationValue::from_bytes(&cv.to_bytes()).expect("decodes");
    assert!(matches!(back.get_data(DataTypes::enabled), DataValue::BoolTrue));
    match back.get_data(DataTypes::user_ids) {
        DataValue::Array(items) => assert!(matches!(items[0], DataValue::BoolFalse)),
        other => panic!("unexpected {:?}", other),
    }
}
