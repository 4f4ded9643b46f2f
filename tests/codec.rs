use ekkyo::error::DecodeFailure;
use ekkyo::packet::hdr::{Header, MessageType};
use ekkyo::packet::message::Message;
use ekkyo::packet::open::OpenMessage;
use ekkyo::types::{ASNum, HoldTime, Ipv4Addr, Version};

fn header_bytes(length: u16, type_code: u8) -> Vec<u8> {
    let mut bytes = vec![0xff; 16];
    bytes.extend_from_slice(&length.to_be_bytes());
    bytes.push(type_code);
    bytes
}

#[test]
fn test_header_try_from() {
    let mut bytes = bytes::BytesMut::with_capacity(19);
    bytes.extend_from_slice(&[0xff; 16]);
    bytes.extend_from_slice(&19u16.to_be_bytes());
    bytes.extend_from_slice(&[1]);

    let header = Header::decode(&bytes[..]).unwrap();
    assert_eq!(header.length, 19);
    assert_eq!(header.message_type, MessageType::Open);
}

#[test]
fn test_message_type_try_from() {
    assert_eq!(MessageType::try_from(1).unwrap(), MessageType::Open);
    assert_eq!(MessageType::try_from(2).unwrap(), MessageType::Update);
    assert_eq!(MessageType::try_from(3).unwrap(), MessageType::Notification);
    assert_eq!(MessageType::try_from(4).unwrap(), MessageType::KeepAlive);
}

#[test]
fn test_message_type_into() {
    assert_eq!(u8::from(MessageType::Open), 1);
    assert_eq!(u8::from(MessageType::Update), 2);
    assert_eq!(u8::from(MessageType::Notification), 3);
    assert_eq!(u8::from(MessageType::KeepAlive), 4);
}

#[test]
fn message_type_rejects_unknown_codes() {
    for code in [0u8, 5, 255] {
        let err = MessageType::try_from(code).unwrap_err();
        assert_eq!(err.reason, DecodeFailure::UnknownType);
    }
}

#[test]
fn convert_bytes_message() {
    let expected = OpenMessage::new(64512.into(), Ipv4Addr::new(127, 0, 0, 1));
    let open_message_bytes = expected.encode();
    let open_message = OpenMessage::decode(&open_message_bytes).unwrap();

    assert_eq!(open_message, expected);
}

#[test]
fn header_encodes_marker_length_and_type() {
    let bytes = Header::new(0x1234, MessageType::KeepAlive).encode();
    assert_eq!(bytes, header_bytes(0x1234, 4));
}

#[test]
fn header_round_trips_for_every_type() {
    for t in [
        MessageType::Open,
        MessageType::Update,
        MessageType::Notification,
        MessageType::KeepAlive,
    ] {
        for length in [0u16, 19, 29, 4096, u16::MAX] {
            let h = Header::new(length, t);
            assert_eq!(Header::decode(&h.encode()).unwrap(), h);
        }
    }
}

#[test]
fn header_type_five_fails_and_type_one_is_open() {
    let bad = header_bytes(19, 5);
    assert_eq!(bad.len(), 19);
    assert_eq!(Header::decode(&bad).unwrap_err().reason, DecodeFailure::UnknownType);
    let good = header_bytes(19, 1);
    assert_eq!(Header::decode(&good).unwrap().message_type, MessageType::Open);
}

#[test]
fn header_decode_ignores_the_marker() {
    let mut bytes = header_bytes(29, 2);
    bytes[0] = 0;
    bytes[15] = 7;
    let h = Header::decode(&bytes).unwrap();
    assert_eq!(h, Header::new(29, MessageType::Update));
}

#[test]
fn header_decode_of_short_input_is_truncated() {
    let bytes = header_bytes(19, 1);
    assert_eq!(Header::decode(&bytes[..18]).unwrap_err().reason, DecodeFailure::Truncated);
    assert_eq!(Header::decode(&[]).unwrap_err().reason, DecodeFailure::Truncated);
}

#[test]
fn open_encodes_byte_exact() {
    let bytes = OpenMessage::new(ASNum::from(64512), Ipv4Addr::new(127, 0, 0, 1)).encode();
    let mut expected = header_bytes(29, 1);
    expected.extend_from_slice(&[4, 0xfc, 0x00, 0, 0, 127, 0, 0, 1, 0]);
    assert_eq!(bytes, expected);
    assert_eq!(bytes.len(), 29);
}

#[test]
fn open_decode_reads_optional_parameters() {
    let mut bytes = header_bytes(32, 1);
    bytes.extend_from_slice(&[3, 0x01, 0x02, 0x00, 0xb4, 10, 0, 0, 1, 3, 7, 8, 9]);
    let open = OpenMessage::decode(&bytes).unwrap();
    assert_eq!(open.encode(), bytes);
}

#[test]
fn open_decode_errors() {
    let mut bytes = OpenMessage::new(ASNum::from(1), Ipv4Addr::new(1, 2, 3, 4)).encode();
    assert_eq!(OpenMessage::decode(&bytes[..28]).unwrap_err().reason, DecodeFailure::Truncated);
    bytes[19] = 5;
    assert_eq!(OpenMessage::decode(&bytes).unwrap_err().reason, DecodeFailure::BadVersion);
    bytes[19] = 4;
    bytes[28] = 2;
    assert_eq!(OpenMessage::decode(&bytes).unwrap_err().reason, DecodeFailure::Truncated);
    bytes[28] = 0;
    bytes[18] = 9;
    assert_eq!(OpenMessage::decode(&bytes).unwrap_err().reason, DecodeFailure::UnknownType);
}

#[test]
fn message_round_trip() {
    let msg = Message::new_open(ASNum::from(64513), Ipv4Addr::new(127, 0, 0, 2));
    let bytes = msg.encode();
    assert_eq!(Message::decode(&bytes).unwrap(), msg);
}

#[test]
fn message_decode_refuses_other_types() {
    let mut bytes = Message::new_open(ASNum::from(1), Ipv4Addr::new(1, 1, 1, 1)).encode();
    bytes[18] = 4;
    match Message::decode(&bytes).unwrap_err().reason {
        DecodeFailure::Unsupported(e) => assert_eq!(e.message_type, MessageType::KeepAlive),
        other => panic!("unexpected failure {:?}", other),
    }
    assert_eq!(Message::decode(&bytes[..10]).unwrap_err().reason, DecodeFailure::Truncated);
}

#[test]
fn value_types_convert() {
    assert_eq!(u16::from(ASNum::from(64512)), 64512);
    assert_eq!(u16::from(HoldTime::from(180)), 180);
    assert_eq!(u16::from(HoldTime::new()), 0);
    assert_eq!(u8::from(Version::new()), 4);
    assert_eq!(u8::from(Version::default()), 4);
    assert_eq!(u8::from(Version::try_from(3).unwrap()), 3);
    assert_eq!(Version::try_from(5).unwrap_err().reason, DecodeFailure::BadVersion);
    assert_eq!(Ipv4Addr::new(10, 1, 2, 3).octets(), [10, 1, 2, 3]);
}
