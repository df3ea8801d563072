use scanners_and_such::scanner::snapi::code_types::CodeType;
use scanners_and_such::scanner::snapi::packet::{
    encode_attribute_request, CollatableSnapiPacket, DecodableSnapiPacket, SnapiAttributePacket,
    SnapiAttributeRequest, SnapiAttributeRequestFlags, SnapiAttributeResponse,
    SnapiAttributeResponseFlags, SnapiAttributeType, SnapiAttributeValue, SnapiBarcodePacket,
    SnapiExtendedResponseCode, SnapiOutput, SnapiPacket, SnapiPacketOutput, SnapiResponseCode,
    SnapiStatus, UnknownCode, PACKET_LEN,
};
use scanners_and_such::scanner::snapi::{
    HidInput, HidOutput, MacroPdfAction, SnapiError, SnapiMode, SnapiNotification,
};

#[test]
fn packet_test_snapi_attribute_request_flags() {
    assert_eq!(
        SnapiAttributeRequestFlags::from(0b11000000),
        SnapiAttributeRequestFlags {
            has_next: true,
            start: true
        }
    );

    assert_eq!(
        SnapiAttributeRequestFlags::from(0b00000000),
        SnapiAttributeRequestFlags {
            has_next: false,
            start: false
        }
    );

    assert_eq!(
        <SnapiAttributeRequestFlags as Into<u8>>::into(SnapiAttributeRequestFlags {
            has_next: true,
            start: true
        }),
        0b11000000 as u8
    );

    assert_eq!(
        <SnapiAttributeRequestFlags as Into<u8>>::into(SnapiAttributeRequestFlags {
            has_next: false,
            start: false
        }),
        0b00000000 as u8
    );
}

#[test]
fn packet_test_snapi_encode_attribute_request() {
    let packets: Vec<_> = encode_attribute_request(&[0x00, 0x06, 0x01, 0x00, 0x00, 0x00]);

    assert_eq!(
        packets,
        vec![vec![
            0x0D, 0x40, 0x00, 0x06, 0x00, 0x06, 0x01, 0x00, 0x00, 0x00
        ]]
    );
}

#[test]
fn request_flags_use_one_bit_each() {
    let next = SnapiAttributeRequestFlags::from(0b10111111);
    assert_eq!(next, SnapiAttributeRequestFlags { has_next: true, start: false });
    assert_eq!(u8::from(next), 0b10000000);
    let start = SnapiAttributeRequestFlags::from(0b01111111);
    assert_eq!(start, SnapiAttributeRequestFlags { has_next: false, start: true });
    assert_eq!(u8::from(start), 0b01000000);
}

#[test]
fn response_flags_are_written_to_another_bit() {
    assert_eq!(
        SnapiAttributeResponseFlags::from(0x10),
        SnapiAttributeResponseFlags { has_next: true }
    );
    assert_eq!(
        SnapiAttributeResponseFlags::from(0xEF),
        SnapiAttributeResponseFlags { has_next: false }
    );
    assert_eq!(u8::from(SnapiAttributeResponseFlags { has_next: true }), 0x20);
    assert_eq!(u8::from(SnapiAttributeResponseFlags { has_next: false }), 0x00);
}

#[test]
fn long_request_is_cut_into_marked_packets() {
    let data: Vec<u8> = (0u8..70).collect();
    let packets = encode_attribute_request(&data);
    assert_eq!(packets.len(), 3);
    assert_eq!(packets[0][..4], [0x0D, 0xC0, 0x00, 70]);
    assert_eq!(packets[1][..4], [0x0D, 0x80, 0x00, 70]);
    assert_eq!(packets[2][..4], [0x0D, 0x00, 0x00, 70]);
    assert_eq!(packets[0].len(), PACKET_LEN);
    assert_eq!(packets[1].len(), PACKET_LEN);
    assert_eq!(packets[2].len(), 4 + 14);
    let payload: Vec<u8> = packets.iter().flat_map(|packet| packet[4..].to_vec()).collect();
    assert_eq!(payload, data);
}

#[test]
fn request_of_two_packets_has_a_first_and_a_last() {
    let packets = encode_attribute_request(&[7; 29]);
    assert_eq!(packets.len(), 2);
    assert_eq!(packets[0][1], 0xC0);
    assert_eq!(packets[1], vec![0x0D, 0x00, 0x00, 29, 7]);
    assert_eq!(encode_attribute_request(&[7; 28]).len(), 1);
    assert_eq!(encode_attribute_request(&[7; 300])[0][2..4], [0x01, 0x2C]);
    assert!(encode_attribute_request(&[]).is_empty());
}

#[test]
fn codes_of_reports() {
    for code in 0..=255u8 {
        assert_eq!(u8::from(HidInput::from(code)), code);
        assert_eq!(u8::from(HidOutput::from(code)), code);
        assert_eq!(u8::from(SnapiNotification::from(code)), code);
        assert_eq!(u8::from(SnapiMode::from(code)), code);
        assert_eq!(u8::from(SnapiAttributeRequest::from(code)), code);
        assert_eq!(u8::from(SnapiAttributeType::from(code)), code);
    }
    assert_eq!(HidInput::from(0x21), HidInput::Status);
    assert_eq!(HidInput::from(0x22), HidInput::Barcode);
    assert_eq!(HidInput::from(0x24), HidInput::Notification);
    assert_eq!(HidInput::from(0x27), HidInput::Attribute);
    assert_eq!(HidInput::from(0x23), HidInput::Unknown(0x23));
    assert_eq!(HidOutput::from(0x01), HidOutput::Acknowledgement);
    assert_eq!(HidOutput::from(0x02), HidOutput::Aim);
    assert_eq!(HidOutput::from(0x03), HidOutput::Mode);
    assert_eq!(HidOutput::from(0x06), HidOutput::Scanner);
    assert_eq!(HidOutput::from(0x08), HidOutput::MacroPdf);
    assert_eq!(HidOutput::from(0x0A), HidOutput::SoftTrigger);
    assert_eq!(HidOutput::from(0x0D), HidOutput::Attribute);
    assert_eq!(HidOutput::from(0x0E), HidOutput::Unknown(0x0E));
    assert_eq!(SnapiNotification::from(0x10), SnapiNotification::BarcodeMode);
    assert_eq!(SnapiNotification::from(0x11), SnapiNotification::ImageMode);
    assert_eq!(SnapiNotification::from(0x12), SnapiNotification::VideoMode);
    assert_eq!(SnapiMode::from(0x00), SnapiMode::Barcode);
    assert_eq!(SnapiMode::from(0x01), SnapiMode::Image);
    assert_eq!(SnapiMode::from(0x02), SnapiMode::Video);
    assert_eq!(SnapiMode::from(0x03), SnapiMode::Unknown(0x03));
    assert_eq!(u8::from(MacroPdfAction::Flush), 0x00);
    assert_eq!(u8::from(MacroPdfAction::Abort), 0x01);
    assert_eq!(SnapiAttributeRequest::from(0x05), SnapiAttributeRequest::SetValue);
    assert_eq!(SnapiAttributeRequest::from(0x03), SnapiAttributeRequest::Unknown(0x03));
    assert_eq!(SnapiAttributeType::from(b'X'), SnapiAttributeType::Action);
}

#[test]
fn response_codes_are_checked() {
    for code in 0..=255u8 {
        match SnapiResponseCode::try_from(code) {
            Ok(value) => assert_eq!(u8::from(value), code),
            Err(error) => assert_eq!(error, UnknownCode { number: code }),
        }
        match SnapiExtendedResponseCode::try_from(code) {
            Ok(value) => assert_eq!(u8::from(value), code),
            Err(error) => assert_eq!(error, UnknownCode { number: code }),
        }
    }
    assert_eq!(SnapiResponseCode::try_from(1), Ok(SnapiResponseCode::Success));
    assert!(SnapiResponseCode::try_from(0).is_err());
    assert!(SnapiResponseCode::try_from(5).is_err());
    assert_eq!(
        SnapiExtendedResponseCode::try_from(3),
        Ok(SnapiExtendedResponseCode::SomeParametersStored)
    );
    assert!(SnapiExtendedResponseCode::try_from(4).is_err());
}

#[test]
fn status_is_decoded() {
    let status = SnapiStatus::decode(&[0x21, 0x0D, 0x01, 0x01]).unwrap();
    assert_eq!(status.hid_output, HidOutput::Attribute);
    assert_eq!(status.response_code, SnapiResponseCode::Success);
    assert_eq!(status.extended_response_code, SnapiExtendedResponseCode::AllParametersStored);
    assert!(matches!(
        SnapiStatus::decode(&[0x21, 0x0D, 0x01]),
        Err(SnapiError::TooShort { expected: 4, actual: 3 })
    ));
    match SnapiStatus::decode(&[0x21, 0x0D, 0x09, 0x01]) {
        Err(SnapiError::UnexpectedValue { value, name }) => {
            assert_eq!((value, name.as_str()), (0x09, "response code"));
        }
        other => panic!("{other:?}"),
    }
    match SnapiStatus::decode(&[0x21, 0x0D, 0x02, 0x09]) {
        Err(SnapiError::UnexpectedValue { value, name }) => {
            assert_eq!((value, name.as_str()), (0x09, "extended response code"));
        }
        other => panic!("{other:?}"),
    }
}

#[test]
fn status_of_another_report_or_outcome_is_an_error() {
    let status = |hid_output, response_code| SnapiStatus {
        hid_output,
        response_code,
        extended_response_code: SnapiExtendedResponseCode::Empty,
    };
    assert!(status(HidOutput::Aim, SnapiResponseCode::Success)
        .error_for_status(HidOutput::Aim)
        .is_ok());
    assert!(matches!(
        status(HidOutput::Aim, SnapiResponseCode::Success).error_for_status(HidOutput::Mode),
        Err(SnapiError::BadStatus { .. })
    ));
    match status(HidOutput::Aim, SnapiResponseCode::NotSupported).error_for_status(HidOutput::Aim)
    {
        Err(SnapiError::BadStatus { status }) => {
            assert_eq!(status.response_code, SnapiResponseCode::NotSupported);
        }
        other => panic!("{other:?}"),
    }
}

#[test]
fn any_packet_is_decoded_by_its_first_byte() {
    assert!(matches!(
        SnapiPacket::decode_any(&[0x21, 0x03, 0x01, 0x00]),
        Ok(SnapiPacket::Status(_))
    ));
    assert!(matches!(
        SnapiPacket::decode_any(&[0x24, 0x11]),
        Ok(SnapiPacket::Notification(SnapiNotification::ImageMode))
    ));
    match SnapiPacket::decode_any(&[0x22, 2, 1, 3, 0x34, 0x12, b'a', b'b', b'c', b'd']) {
        Ok(SnapiPacket::Barcode(packet)) => {
            assert_eq!(packet.packet_count, 2);
            assert_eq!(packet.packet_index, 1);
            assert_eq!(packet.code_type, CodeType::from(0x1234));
            assert_eq!(packet.data, b"abc");
        }
        other => panic!("{other:?}"),
    }
    match SnapiPacket::decode_any(&[0x27, 0x10, 2, 8, 9, 10]) {
        Ok(SnapiPacket::Attribute(packet)) => {
            assert!(packet.flags.has_next);
            assert_eq!(packet.data, [8, 9]);
        }
        other => panic!("{other:?}"),
    }
    match SnapiPacket::decode_any(&[0x99, 1, 2]) {
        Ok(SnapiPacket::Other { hid_input, data }) => {
            assert_eq!(hid_input, HidInput::Unknown(0x99));
            assert_eq!(data, [0x99, 1, 2]);
        }
        other => panic!("{other:?}"),
    }
}

#[test]
fn short_packets_are_refused() {
    assert!(matches!(
        SnapiPacket::decode_any(&[0x22, 1, 0, 0, 0]),
        Err(SnapiError::TooShort { expected: 6, actual: 5 })
    ));
    assert!(matches!(
        SnapiPacket::decode_any(&[0x22, 1, 0, 4, 0, 0, 1]),
        Err(SnapiError::TooShort { expected: 10, actual: 7 })
    ));
    assert!(matches!(
        SnapiPacket::decode_any(&[0x27, 0]),
        Err(SnapiError::TooShort { expected: 3, actual: 2 })
    ));
    assert!(matches!(
        SnapiPacket::decode_any(&[0x27, 0, 5, 1]),
        Err(SnapiError::TooShort { expected: 8, actual: 4 })
    ));
}

#[test]
fn specific_packet_has_to_be_of_its_kind() {
    assert!(SnapiPacket::decode_specific::<SnapiStatus>(&[0x21, 3, 1, 0]).is_ok());
    match SnapiPacket::decode_specific::<SnapiStatus>(&[0x24, 0x10]) {
        Err(SnapiError::UnexpectedValue { value, name }) => {
            assert_eq!((value, name.as_str()), (0x24, "decode"));
        }
        other => panic!("{other:?}"),
    }
    assert!(SnapiPacket::decode_specific::<SnapiNotification>(&[0x24, 0x10]).is_ok());
    assert!(SnapiPacket::decode_specific::<SnapiBarcodePacket>(&[0x24, 0x10]).is_err());
    assert!(SnapiPacket::decode_specific::<SnapiAttributePacket>(&[0x27, 0, 0]).is_ok());
}

fn barcode_packet(count: usize, index: usize, data: &[u8]) -> SnapiBarcodePacket {
    SnapiBarcodePacket {
        packet_count: count,
        packet_index: index,
        code_type: CodeType { number: index as u16 },
        data: data.to_vec(),
    }
}

#[test]
fn barcode_in_one_packet_is_whole() {
    let mut packets = Vec::new();
    let barcode = barcode_packet(1, 0, b"only").collate(&mut packets).unwrap().unwrap();
    assert_eq!(barcode.data, b"only");
    assert!(packets.is_empty());
}

#[test]
fn barcode_in_several_packets_is_put_together() {
    let mut packets = Vec::new();
    assert!(barcode_packet(3, 0, b"a").collate(&mut packets).unwrap().is_none());
    assert!(barcode_packet(3, 1, b"bc").collate(&mut packets).unwrap().is_none());
    assert_eq!(packets.len(), 2);
    let barcode = barcode_packet(3, 2, b"def").collate(&mut packets).unwrap().unwrap();
    assert_eq!(barcode.data, b"abcdef");
    assert_eq!(barcode.code_type, CodeType { number: 2 });
    assert!(packets.is_empty());
}

fn order_error<T: std::fmt::Debug>(result: Result<T, SnapiError>) -> String {
    match result {
        Err(SnapiError::BadPacketOrder { name }) => name,
        other => panic!("{other:?}"),
    }
}

#[test]
fn barcode_packets_out_of_order_are_dropped() {
    let mut packets = vec![barcode_packet(3, 0, b"a")];
    assert_eq!(
        order_error(barcode_packet(1, 0, b"x").collate(&mut packets)),
        "expected 0 previous packets, had 1"
    );
    assert!(packets.is_empty());

    let mut packets = vec![barcode_packet(13, 0, b"a")];
    assert_eq!(
        order_error(barcode_packet(13, 12, b"x").collate(&mut packets)),
        "expected 13 packets, had 2"
    );
    assert!(packets.is_empty());

    let mut packets = Vec::new();
    assert_eq!(
        order_error(barcode_packet(200, 107, b"x").collate(&mut packets)),
        "on packet index 107 but had 1"
    );
    assert!(packets.is_empty());
}

#[test]
fn outputs_of_packets() {
    let mut statuses = Vec::new();
    let status = SnapiStatus::decode(&[0x21, 0x03, 0x01, 0x00]).unwrap();
    assert!(matches!(
        status.collate(&mut statuses).unwrap().output(),
        Some(SnapiOutput::Status(_))
    ));
    assert!(matches!(
        SnapiNotification::VideoMode.output(),
        Some(SnapiOutput::Notification(SnapiNotification::VideoMode))
    ));
    let none: Option<SnapiStatus> = None;
    assert!(none.output().is_none());
    assert!(matches!(
        Some(SnapiNotification::BarcodeMode).output(),
        Some(SnapiOutput::Notification(SnapiNotification::BarcodeMode))
    ));
}

fn attribute_packet(has_next: bool, data: &[u8]) -> SnapiAttributePacket {
    SnapiAttributePacket {
        flags: SnapiAttributeResponseFlags { has_next },
        data: data.to_vec(),
    }
}

#[test]
fn answer_in_several_packets_is_put_together() {
    let mut packets = Vec::new();
    let first = attribute_packet(true, &[0, 9, 1, 0, 0]);
    assert!(first.collate(&mut packets).unwrap().is_none());
    let last = attribute_packet(false, &[0, 0x02, 0x16, 0xFF, 0xFF]);
    match last.collate(&mut packets).unwrap() {
        Some(SnapiAttributeResponse::GetId(ids)) => assert_eq!(ids, [534, 0xFFFF]),
        other => panic!("{other:?}"),
    }
    assert!(packets.is_empty());
}

#[test]
fn answer_that_cannot_be_read_is_dropped() {
    let mut packets = vec![attribute_packet(true, &[0, 0, 2, 0, 0, 0])];
    let result = attribute_packet(false, &[b'W']).collate(&mut packets);
    assert!(matches!(result, Err(SnapiError::TooShort { expected: 9, actual: 7 })));
    assert!(packets.is_empty());
}

#[test]
fn answers_are_decoded_by_their_request() {
    assert!(SnapiAttributeResponse::can_decode(&[0, 0, 5]));
    assert!(!SnapiAttributeResponse::can_decode(&[0, 0]));
    assert!(!SnapiAttributeResponse::can_decode(&[0, 0, 1]));
    match SnapiAttributeResponse::decode(&[0, 0, 1, 0, 0, 0, 1, 2, 3]) {
        Ok(SnapiAttributeResponse::GetId(ids)) => assert_eq!(ids, [0x0102]),
        other => panic!("{other:?}"),
    }
    assert!(matches!(
        SnapiAttributeResponse::decode(&[0, 0, 2]),
        Ok(SnapiAttributeResponse::Get(None))
    ));
    match SnapiAttributeResponse::decode(&[0, 0, 4, 0, 0, 0, 0, 0, 0, 0, 0, 0, 0, 7, 8]) {
        Ok(SnapiAttributeResponse::GetOffset(data)) => assert_eq!(data, [7, 8]),
        other => panic!("{other:?}"),
    }
    assert!(matches!(
        SnapiAttributeResponse::decode(&[0, 0, 4]),
        Err(SnapiError::TooShort { expected: 13, actual: 3 })
    ));
    assert!(matches!(
        SnapiAttributeResponse::decode(&[0, 0, 5]),
        Ok(SnapiAttributeResponse::SetValue)
    ));
    assert!(matches!(
        SnapiAttributeResponse::decode(&[0, 0, 6]),
        Ok(SnapiAttributeResponse::Store)
    ));
    match SnapiAttributeResponse::decode(&[0, 0, 0x20, 1]) {
        Ok(SnapiAttributeResponse::Unknown { request, data }) => {
            assert_eq!(request, SnapiAttributeRequest::Unknown(0x20));
            assert_eq!(data, [0, 0, 0x20, 1]);
        }
        other => panic!("{other:?}"),
    }
}

fn value_of(tail: &[u8]) -> Result<Option<SnapiAttributeValue>, SnapiError> {
    let mut data = vec![0, 0, 2, 0, 0x02, 0x16];
    data.extend_from_slice(tail);
    SnapiAttributeValue::decode(&data)
}

#[test]
fn values_are_decoded_by_their_type() {
    assert!(matches!(value_of(&[]), Ok(None)));
    assert!(matches!(value_of(&[0x00]), Ok(None)));
    assert!(matches!(value_of(&[b'F', 0, 1]), Ok(Some(SnapiAttributeValue::Flag(true)))));
    assert!(matches!(value_of(&[b'F', 0, 0]), Ok(Some(SnapiAttributeValue::Flag(false)))));
    assert!(matches!(value_of(&[b'B', 0, 9]), Ok(Some(SnapiAttributeValue::Byte(9)))));
    assert!(matches!(
        value_of(&[b'W', 0, 0x34, 0x12]),
        Ok(Some(SnapiAttributeValue::Word(0x1234)))
    ));
    assert!(matches!(
        value_of(&[b'D', 0, 0x78, 0x56, 0x34, 0x12]),
        Ok(Some(SnapiAttributeValue::DWord(0x12345678)))
    ));
    match value_of(&[b'X', 1, 2]) {
        Ok(Some(SnapiAttributeValue::Unknown { attribute_type, data })) => {
            assert_eq!(attribute_type, SnapiAttributeType::Action);
            assert_eq!(data, [0, 0, 2, 0, 0x02, 0x16, b'X', 1, 2]);
        }
        other => panic!("{other:?}"),
    }
}

#[test]
fn texts_are_decoded() {
    match value_of(&[b'S', 0, 0, 4, 0, 0, b'a', 0xC3, 0xA9, 0]) {
        Ok(Some(SnapiAttributeValue::String(text))) => assert_eq!(text, "aé"),
        other => panic!("{other:?}"),
    }
    match value_of(&[b'S', 0, 0, 3, 0, 0, b'a', 0xFF, 0]) {
        Ok(Some(SnapiAttributeValue::Array(bytes))) => assert_eq!(bytes, [b'a', 0xFF]),
        other => panic!("{other:?}"),
    }
    match value_of(&[b'S', 0, 0, 1, 0, 0, 0]) {
        Ok(Some(SnapiAttributeValue::String(text))) => assert_eq!(text, ""),
        other => panic!("{other:?}"),
    }
    assert!(matches!(
        value_of(&[b'S', 0, 0, 9, 0, 0, b'a']),
        Err(SnapiError::TooShort { expected: 20, actual: 13 })
    ));
}

#[test]
fn long_arrays_come_in_part() {
    match value_of(&[b'A', 0, 0, 2, 1, 0, 0, 5, 6, 7]) {
        Err(SnapiError::PartialData { expected, got }) => {
            assert_eq!(expected, 0x0201);
            assert_eq!(got, [5, 6, 7]);
        }
        other => panic!("{other:?}"),
    }
    match value_of(&[b'A', 0, 0, 0, 2, 0, 0, 5, 6, 7]) {
        Ok(Some(SnapiAttributeValue::Array(bytes))) => assert_eq!(bytes, [5, 6]),
        other => panic!("{other:?}"),
    }
    match value_of(&[b'A', 0, 0, 0, 0, 0, 0, 5]) {
        Ok(Some(SnapiAttributeValue::Array(bytes))) => assert!(bytes.is_empty()),
        other => panic!("{other:?}"),
    }
}

#[test]
fn what_cannot_be_read_or_written_is_told() {
    assert!(SnapiPacket::can_decode(&[0x24, 0x10]));
    assert!(SnapiPacket::can_decode(&[0x22]));
    assert!(!SnapiPacket::can_decode(&[0x24]));
    assert!(!SnapiPacket::can_decode(&[]));
    assert!(SnapiAttributeValue::can_decode(&[0, 0, 2, 0, 0, 0, b'F', 0, 1]));
    assert!(!SnapiAttributeValue::can_decode(&[0, 0, 2, 0, 0, 0, b'F', 0]));
    assert!(!SnapiAttributeValue::can_decode(&[0, 0, 2, 0, 0, 0, b'S', 0, 0]));
    assert!(SnapiAttributeValue::can_decode(&[0, 0]));
    assert!(SnapiAttributeValue::String("x".repeat(0x7FFF)).can_encode());
    assert!(!SnapiAttributeValue::String("x".repeat(0x8000)).can_encode());
    assert!(!SnapiAttributeValue::Array(vec![1]).can_encode());
    assert!(SnapiAttributeValue::Word(1).can_encode());
}

#[test]
fn values_are_encoded() {
    assert_eq!(SnapiAttributeValue::Flag(true).encode(), Some(vec![b'F', 0, 1]));
    assert_eq!(SnapiAttributeValue::Byte(7).encode(), Some(vec![b'B', 0, 7]));
    assert_eq!(SnapiAttributeValue::Word(0x1234).encode(), Some(vec![b'W', 0x12, 0x34]));
    assert_eq!(
        SnapiAttributeValue::DWord(0x12345678).encode(),
        Some(vec![b'D', 0x12, 0x34, 0x56, 0x78])
    );
    assert_eq!(SnapiAttributeValue::Action(0x1234).encode(), Some(vec![b'X', 0x34, 0x12]));
    assert_eq!(
        SnapiAttributeValue::String("hé".to_string()).encode(),
        Some(vec![b'S', 0, 0, 3, 0, 0, b'h', 0xC3, 0xA9])
    );
    let unknown = SnapiAttributeValue::Unknown {
        attribute_type: SnapiAttributeType::Unknown(1),
        data: vec![],
    };
    assert_eq!(unknown.encode(), None);
    assert_eq!(unknown.attribute_type(), SnapiAttributeType::Unknown(1));
    assert_eq!(
        SnapiAttributeValue::Array(vec![]).attribute_type(),
        SnapiAttributeType::Array
    );
}

#[test]
fn flag_byte_and_ended_text_read_back() {
    for value in [SnapiAttributeValue::Flag(true), SnapiAttributeValue::Byte(200)] {
        let read = value_of(&value.encode().unwrap()).unwrap().unwrap();
        assert_eq!(format!("{read:?}"), format!("{value:?}"));
    }
    let text = SnapiAttributeValue::String("serial\0".to_string()).encode().unwrap();
    match value_of(&text) {
        Ok(Some(SnapiAttributeValue::String(text))) => assert_eq!(text, "serial"),
        other => panic!("{other:?}"),
    }
}
