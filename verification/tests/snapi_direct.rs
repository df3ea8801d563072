use scanners_and_such::scanner::snapi_direct::{
    snapi_encode_attribute_request, Answer, DirectAction, Snapi, SnapiAttributeRequestFlags,
    SnapiAttributeValue, SnapiDeviceInfo, SnapiError, SnapiExtendedResponseCode, SnapiInput,
    SnapiOutput, SnapiResponseCode, SERIAL_NUMBER_ATTRIBUTE, SNAPI_PACKET_LEN, SNAPI_PRODUCT_ID,
    SNAPI_VENDOR_ID,
};

#[test]
fn snapi_test_snapi_attribute_request_flags() {
    assert_eq!(
        SnapiAttributeRequestFlags::from(0b11000000),
        SnapiAttributeRequestFlags {
            has_next: true,
            start: true
        }
    );

    assert_eq!(
        SnapiAttributeRequestFlags::from(0b00000000),
        SnapiAttributeRequestFlags {
            has_next: false,
            start: false
        }
    );

    assert_eq!(
        <SnapiAttributeRequestFlags as Into<u8>>::into(SnapiAttributeRequestFlags {
            has_next: true,
            start: true
        }),
        0b11000000 as u8
    );

    assert_eq!(
        <SnapiAttributeRequestFlags as Into<u8>>::into(SnapiAttributeRequestFlags {
            has_next: false,
            start: false
        }),
        0b00000000 as u8
    );
}

#[test]
fn snapi_test_snapi_encode_attribute_request() {
    let packets: Vec<_> = snapi_encode_attribute_request(&[0x00, 0x06, 0x01, 0x00, 0x00, 0x00]);

    assert_eq!(
        packets,
        vec![vec![
            0x0D, 0x40, 0x00, 0x06, 0x00, 0x06, 0x01, 0x00, 0x00, 0x00
        ]]
    );
}

fn report(start: &[u8]) -> [u8; SNAPI_PACKET_LEN] {
    let mut report = [0u8; SNAPI_PACKET_LEN];
    report[..start.len()].copy_from_slice(start);
    report
}

/// An answer in as many reports as it takes.
fn reports(answer: &[u8]) -> Vec<[u8; SNAPI_PACKET_LEN]> {
    let count = answer.chunks(10).count();
    answer
        .chunks(10)
        .enumerate()
        .map(|(i, chunk)| {
            let flags = if i + 1 < count { 0x10 } else { 0x00 };
            let mut start = vec![0x27, flags, chunk.len() as u8];
            start.extend_from_slice(chunk);
            report(&start)
        })
        .collect()
}

fn answered(answer: &[u8]) -> Result<Option<SnapiAttributeValue>, SnapiError> {
    let mut exchange = Snapi::write_attribute_command(&Snapi::get_attribute(534));
    exchange.confirm(&report(&[0x21, 0x0D, 0x01, 0x00])).unwrap();
    assert!(matches!(exchange.next(), DirectAction::Read));
    for report in reports(answer) {
        assert!(exchange.can_receive(&report));
        match exchange.read_attribute(&report)? {
            Answer::More => continue,
            Answer::Whole(value) => return Ok(value),
        }
    }
    panic!("no answer");
}

#[test]
fn direct_codes() {
    assert_eq!(u8::from(SnapiInput::Status), 0x21);
    assert_eq!(u8::from(SnapiInput::Attribute), 0x27);
    assert_eq!(u8::from(SnapiOutput::Attribute), 0x0D);
    assert_eq!(Snapi::write_ack(SnapiInput::Attribute), [0x01, 0x27, 0x01]);
    assert_eq!(Snapi::write_ack(SnapiInput::Status), [0x01, 0x21, 0x01]);
}

#[test]
fn direct_device_is_recognized() {
    assert!(Snapi::is_supported(SNAPI_VENDOR_ID, SNAPI_PRODUCT_ID));
    assert!(Snapi::is_supported(0x05E0, 0x1900));
    assert!(!Snapi::is_supported(0x05E0, 0x1901));
    assert!(!Snapi::is_supported(0x05E1, 0x1900));
}

#[test]
fn direct_requests() {
    assert_eq!(
        Snapi::initialize_device(),
        [
            vec![0x00, 0x06, 0x20, 0x00, 0x04, 0xB0, 0x00, 0x00, 0x00],
            vec![0x00, 0x09, 0x05, 0x00, 0x4E, 0x2A, 0x42, 0x00, 0x01],
        ]
    );
    assert_eq!(
        Snapi::get_attribute(SERIAL_NUMBER_ATTRIBUTE),
        [0x00, 0x06, 0x02, 0x00, 0x02, 0x16]
    );
}

#[test]
fn direct_status_is_checked() {
    let status = Snapi::read_status(&report(&[0x21, 0x0D, 0x03, 0x02])).unwrap();
    assert_eq!(status.report_id, 0x0D);
    assert_eq!(status.response_code, SnapiResponseCode::NotSupported);
    assert_eq!(
        status.extended_response_code,
        SnapiExtendedResponseCode::NoParametersStored
    );
    assert!(matches!(status.error_for_status(), Err(SnapiError::BadStatus { .. })));
    let name_of = |start: &[u8]| match Snapi::read_status(&report(start)) {
        Err(SnapiError::UnexpectedValue { value, name }) => (value, name),
        other => panic!("{other:?}"),
    };
    assert_eq!(name_of(&[0x27]), (0x27, "status"));
    assert_eq!(name_of(&[0x21, 0, 9, 8]), (9, "response code"));
    assert_eq!(name_of(&[0x21, 0, 1, 8]), (8, "extended response code"));
}

#[test]
fn direct_response_codes_are_checked() {
    for code in 0..=255u8 {
        match SnapiResponseCode::try_from(code) {
            Ok(_) => assert!((1..=4).contains(&code)),
            Err(SnapiError::UnexpectedValue { value, name }) => {
                assert_eq!((value, name), (code, "response code"));
            }
            Err(other) => panic!("{other:?}"),
        }
        match SnapiExtendedResponseCode::try_from(code) {
            Ok(_) => assert!(code <= 3),
            Err(SnapiError::UnexpectedValue { value, name }) => {
                assert_eq!((value, name), (code, "extended response code"));
            }
            Err(other) => panic!("{other:?}"),
        }
    }
    assert!(matches!(SnapiResponseCode::try_from(2), Ok(SnapiResponseCode::Fail)));
    assert!(matches!(
        SnapiExtendedResponseCode::try_from(0),
        Ok(SnapiExtendedResponseCode::Empty)
    ));
}

#[test]
fn direct_request_is_written_packet_by_packet() {
    let mut exchange = Snapi::write_attribute_command(&[1; 30]);
    assert!(exchange.confirm(&report(&[0x21, 0x0D, 0x02, 0x00])).is_err());
    match exchange.next() {
        DirectAction::Write(packet) => assert_eq!(packet[1], 0xC0),
        other => panic!("{other:?}"),
    }
    exchange.confirm(&report(&[0x21, 0x0D, 0x01, 0x00])).unwrap();
    match exchange.next() {
        DirectAction::Write(packet) => assert_eq!(packet, [0x0D, 0x00, 0, 30, 1, 1]),
        other => panic!("{other:?}"),
    }
    exchange.confirm(&report(&[0x21, 0x0D, 0x01, 0x00])).unwrap();
    assert!(matches!(exchange.next(), DirectAction::Read));
}

#[test]
fn direct_answers_are_decoded() {
    assert!(matches!(answered(&[1, 2, 3, 4, 5]), Ok(None)));
    assert!(matches!(answered(&[0, 0, 2, 0, 0, 0, 0]), Ok(None)));
    assert!(matches!(
        answered(&[0, 0, 2, 0, 0, 0, b'F', 0, 1]),
        Ok(Some(SnapiAttributeValue::Flag(true)))
    ));
    assert!(matches!(
        answered(&[0, 0, 2, 0, 0, 0, b'B', 0, 77]),
        Ok(Some(SnapiAttributeValue::Byte(77)))
    ));
    assert!(matches!(
        answered(&[0, 0, 2, 0, 0, 0, b'W', 0, 0x34, 0x12]),
        Ok(Some(SnapiAttributeValue::Word(0x1234)))
    ));
    assert!(matches!(
        answered(&[0, 0, 2, 0, 0, 0, b'D', 0, 0x78, 0x56, 0x34, 0x12]),
        Ok(Some(SnapiAttributeValue::DWord(0x12345678)))
    ));
    match answered(&[0, 0, 2, 0, 0, 0, b'Z', 0]) {
        Err(SnapiError::UnexpectedValue { value, name }) => {
            assert_eq!((value, name), (b'Z', "attribute type"));
        }
        other => panic!("{other:?}"),
    }
}

#[test]
fn direct_texts_are_decoded() {
    match answered(&[0, 0, 2, 0, 0, 0, b'S', 0, 0, 5, 0, 0, b'S', b'N', b'1', b'2', 0]) {
        Ok(Some(SnapiAttributeValue::String(text))) => assert_eq!(text, "SN12"),
        other => panic!("{other:?}"),
    }
    match answered(&[0, 0, 2, 0, 0, 0, b'S', 0, 0, 3, 0, 0, b'S', 0xFF, 0]) {
        Err(SnapiError::InvalidString { data }) => assert_eq!(data, [b'S', 0xFF]),
        other => panic!("{other:?}"),
    }
}

#[test]
fn direct_reports_that_cannot_be_read() {
    let mut exchange = Snapi::write_attribute_command(&[]);
    assert!(!exchange.can_receive(&report(&[0x27, 0x10, 30])));
    assert!(exchange.can_receive(&report(&[0x27, 0x10, 29])));
    assert!(!exchange.can_receive(&report(&[0x27, 0x00, 6])));
    assert!(!exchange.can_receive(&report(&[0x27, 0x00, 20, 0, 0, 0, 0, 0, 0, b'A'])));
    match exchange.read_attribute(&report(&[0x22])) {
        Err(SnapiError::UnexpectedValue { value, name }) => {
            assert_eq!((value, name), (0x22, "attribute"));
        }
        other => panic!("{other:?}"),
    }
}

#[test]
fn direct_device_info() {
    let info = SnapiDeviceInfo::without_serial_number("scanner".to_string());
    assert_eq!(info.name, "scanner");
    assert_eq!(info.serial_number, None);
    let serial = Some(SnapiAttributeValue::String("42".to_string()));
    let info = SnapiDeviceInfo::with_serial_number("scanner".to_string(), serial).unwrap();
    assert_eq!(info.name, "scanner");
    assert_eq!(info.serial_number, Some("42".to_string()));
    let number = Some(SnapiAttributeValue::Byte(4));
    assert!(SnapiDeviceInfo::with_serial_number("scanner".to_string(), number).is_none());
    assert!(SnapiDeviceInfo::with_serial_number("scanner".to_string(), None).is_none());
    let serial: Result<_, u8> = Ok(Some(SnapiAttributeValue::String("42".to_string())));
    let info = SnapiDeviceInfo::listed("scanner".to_string(), serial).unwrap();
    assert_eq!(info.serial_number, Some("42".to_string()));
    assert!(SnapiDeviceInfo::listed("scanner".to_string(), Err(7)).is_none());
    assert!(SnapiDeviceInfo::listed::<u8>("scanner".to_string(), Ok(None)).is_none());
}
