use byteorder::{BigEndian, ReadBytesExt};
use std::io::{Cursor, Read};
use ttp_core::{CommunicationType, CommunicationValue, DataTypes, DataValue};

fn roundtrip(cv: CommunicationValue) -> CommunicationValue {
    let bytes = cv.to_bytes();
    let decoded = CommunicationValue::from_bytes(&bytes).expect("failed to deserialize");
    let bytes2 = decoded.to_bytes();
    assert_eq!(bytes, bytes2);
    decoded
}

#[test]
fn test_flags_and_order_without_optional() {
    let cv = CommunicationValue::new(CommunicationType::ping).expect("random id").with_id(0);
    let bytes = cv.to_bytes();

    // [u32 len][type][flags]...
    assert!(bytes.len() >= 6);
    let mut c = Cursor::new(bytes.as_slice());
    let total_len = c.read_u32::<BigEndian>().expect("read len");
    assert_eq!(total_len as usize + 4, bytes.len());

    let typ = c.read_u8().expect("read type");
    assert_eq!(typ, CommunicationType::ping.as_number());

    let flags = c.read_u8().expect("read flags");
    assert_eq!(flags & 0b0000_0111, 0);
}

#[test]
fn test_flags_and_order_with_all_optional() {
    let cv = CommunicationValue::new(CommunicationType::message_send).expect("random id")
        .with_id(0xAABBCCDD)
        .with_sender(0x0000_1122_3344_5566)
        .with_receiver(0x0000_6677_8899_AABB);

    let bytes = cv.to_bytes();
    let mut c = Cursor::new(bytes.as_slice());

    let total_len = c.read_u32::<BigEndian>().expect("len");
    assert_eq!(total_len as usize + 4, bytes.len());

    let typ = c.read_u8().expect("type");
    assert_eq!(typ, CommunicationType::message_send.as_number());

    let flags = c.read_u8().expect("flags");
    assert_eq!(flags & 0b0000_0111, 0b0000_0111);

    let id = c.read_u32::<BigEndian>().expect("id");
    assert_eq!(id, 0xAABBCCDD);

    let mut sender6 = [0u8; 6];
    c.read_exact(&mut sender6).expect("sender");
    assert_eq!(sender6, [0x11, 0x22, 0x33, 0x44, 0x55, 0x66]);

    let mut receiver6 = [0u8; 6];
    c.read_exact(&mut receiver6).expect("receiver");
    assert_eq!(receiver6, [0x66, 0x77, 0x88, 0x99, 0xAA, 0xBB]);
}

#[test]
fn test_roundtrip_complex() {
    let cv = CommunicationValue::new(CommunicationType::update).expect("random id")
        .with_id(1234)
        .with_sender(111)
        .with_receiver(222)
        .add_data(DataTypes::username, DataValue::Str("alice".to_string()))
        .add_data(DataTypes::user_id, DataValue::Number(42))
        .add_data(DataTypes::enabled, DataValue::BoolTrue)
        .add_data(
            DataTypes::user_ids,
            DataValue::Array(vec![DataValue::Number(1), DataValue::Number(2)]),
        );

    let decoded = roundtrip(cv.clone());

    assert_eq!(decoded.get_id(), 1234);
    assert_eq!(decoded.get_sender(), 111);
    assert_eq!(decoded.get_receiver(), 222);
    assert_eq!(decoded.get_type(), CommunicationType::update);
    assert_eq!(
        decoded.get_data(DataTypes::username),
        &DataValue::Str("alice".to_string())
    );
    assert_eq!(decoded.get_data(DataTypes::user_id), &DataValue::Number(42));
}

#[test]
fn test_corrupted_length_returns_none() {
    let mut bad = vec![0u8; 8];
    // total_length claims more than available
    bad[0..4].copy_from_slice(&(1000u32.to_be_bytes()));
    assert!(CommunicationValue::from_bytes(&bad).is_none());
}
