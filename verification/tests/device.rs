use scanners_and_such::scanner::snapi::packet::{
    SnapiAttributeResponse, SnapiAttributeType, SnapiAttributeValue, SnapiOutput,
};
use scanners_and_such::scanner::snapi::{
    after_packet, AttributeReadStep, ExchangeAction, HidInput, HidOutput, MacroPdfAction,
    PacketStep, Pending, Route, Snapi, SnapiError, SnapiMode, SnapiNotification, UsbReader,
    UsbStep, HEADER_LEN, USB_PRODUCT_ID, USB_VENDOR_ID,
};

#[test]
fn commands_have_a_kind_and_an_argument() {
    let ack = Snapi::write_ack(HidInput::Attribute);
    assert_eq!(ack.packet, [0x01, 0x27, 0x01]);
    assert_eq!(ack.hid_output, HidOutput::Acknowledgement);
    assert!(!ack.read_status);
    assert_eq!(Snapi::acknowledge(&[0x99, 1]).packet, [0x01, 0x99, 0x01]);
    let mode = Snapi::set_mode(SnapiMode::Video);
    assert_eq!(mode.packet, [0x03, 0x02]);
    assert_eq!(mode.hid_output, HidOutput::Mode);
    assert!(mode.read_status);
    assert_eq!(Snapi::set_aim(true).packet, [0x02, 0x01]);
    assert_eq!(Snapi::set_scanner(false).packet, [0x06, 0x00]);
    assert_eq!(Snapi::send_macro_pdf_action(MacroPdfAction::Abort).packet, [0x08, 0x01]);
    assert_eq!(Snapi::set_soft_trigger(true).packet, [0x0A, 0x01]);
    assert_eq!((USB_VENDOR_ID, USB_PRODUCT_ID), (0x05E0, 0x1900));
}

#[test]
fn status_of_a_command_is_checked() {
    assert!(Snapi::check_status(HidOutput::Aim, Some(&[0x21, 0x02, 0x01, 0x00])).is_ok());
    assert!(matches!(
        Snapi::check_status(HidOutput::Aim, Some(&[0x21, 0x02, 0x02, 0x00])),
        Err(SnapiError::BadStatus { .. })
    ));
    assert!(matches!(
        Snapi::check_status(HidOutput::Aim, Some(&[0x21, 0x03, 0x01, 0x00])),
        Err(SnapiError::BadStatus { .. })
    ));
    assert!(matches!(
        Snapi::check_status(HidOutput::Aim, None),
        Err(SnapiError::Channel { name: "rx status" })
    ));
    let aim = Snapi::set_aim(true);
    assert!(Snapi::write_command(&aim, Some(&[0x21, 0x02, 0x01, 0x00])).is_ok());
    assert!(Snapi::write_command(&aim, Some(&[0x21, 0x06, 0x01, 0x00])).is_err());
    assert!(Snapi::write_command(&aim, None).is_err());
    assert!(Snapi::write_command(&Snapi::write_ack(HidInput::Status), None).is_ok());
    assert!(matches!(
        Snapi::read_status(Some(&[0x22, 0x02, 0x01, 0x00])),
        Err(SnapiError::UnexpectedValue { value: 0x22, .. })
    ));
}

#[test]
fn requests_of_attributes() {
    assert_eq!(Snapi::initialize_device(), [0x00, 0x06, 0x20, 0x00, 0x04, 0xB0]);
    assert_eq!(Snapi::get_attribute_ids(0x0102), [0x00, 0x06, 0x01, 0x00, 0x01, 0x02]);
    assert_eq!(
        Snapi::set_attribute(534, true, &SnapiAttributeValue::Byte(9)).unwrap(),
        [0x00, 0x09, 0x06, 0x00, 0x02, 0x16, b'B', 0x00, 9]
    );
    assert_eq!(
        Snapi::set_attribute(534, false, &SnapiAttributeValue::DWord(1)).unwrap(),
        [0x00, 0x0B, 0x05, 0x00, 0x02, 0x16, b'D', 0, 0, 0, 1]
    );
    let unknown = SnapiAttributeValue::Unknown {
        attribute_type: SnapiAttributeType::Empty,
        data: vec![],
    };
    assert!(matches!(
        Snapi::set_attribute(534, false, &unknown),
        Err(SnapiError::MismatchedData { name: "cannot encode unknown value" })
    ));
}

#[test]
fn answers_to_requests_are_checked() {
    assert_eq!(
        Snapi::attribute_ids(SnapiAttributeResponse::GetId(vec![1, 2])).unwrap(),
        [1, 2]
    );
    assert!(matches!(
        Snapi::attribute_ids(SnapiAttributeResponse::Store),
        Err(SnapiError::MismatchedData { name: "attribute ids" })
    ));
    assert!(Snapi::attribute_set(true, SnapiAttributeResponse::Store).is_ok());
    assert!(Snapi::attribute_set(false, SnapiAttributeResponse::SetValue).is_ok());
    assert!(matches!(
        Snapi::attribute_set(true, SnapiAttributeResponse::SetValue),
        Err(SnapiError::MismatchedData { name: "attribute set" })
    ));
    assert!(Snapi::attribute_set(false, SnapiAttributeResponse::Store).is_err());
}

#[test]
fn reports_are_processed_into_outputs() {
    let mut device = Snapi::new();
    assert!(!device.can_process(&[]));
    assert!(!device.can_process(&[0x24]));
    assert!(device.can_process(&[0x24, 0x10]));
    assert!(matches!(
        device.process_packet(vec![0x24, 0x10]),
        Ok(Some(SnapiOutput::Notification(SnapiNotification::BarcodeMode)))
    ));
    assert!(matches!(
        device.process_packet(vec![0x22, 2, 0, 1, 5, 0, b'a']),
        Ok(None)
    ));
    assert!(matches!(
        device.process_packet(vec![0x27, 0x10, 3, 0, 0, 1]),
        Ok(None)
    ));
    match device.process_packet(vec![0x22, 2, 1, 1, 5, 0, b'b']) {
        Ok(Some(SnapiOutput::Barcode(barcode))) => {
            assert_eq!(barcode.data, b"ab");
            assert_eq!(barcode.code_type.number, 5);
        }
        other => panic!("{other:?}"),
    }
    assert!(!device.can_process(&[0x27, 0x00, 2, 0, 0]));
    assert!(device.can_process(&[0x27, 0x00, 5, 0, 0, 0, 1, 2]));
    match device.process_packet(vec![0x27, 0x00, 5, 0, 0, 0, 1, 2]) {
        Ok(Some(SnapiOutput::Attribute(SnapiAttributeResponse::GetId(ids)))) => {
            assert_eq!(ids, [0x0102]);
        }
        other => panic!("{other:?}"),
    }
    assert!(matches!(
        device.process_packet(vec![0x21, 1, 9, 0]),
        Err(SnapiError::UnexpectedValue { value: 9, .. })
    ));
    match device.process_packet(vec![0x55, 1]) {
        Ok(Some(SnapiOutput::Other { hid_input, data })) => {
            assert_eq!(hid_input, HidInput::Unknown(0x55));
            assert_eq!(data, [0x55, 1]);
        }
        other => panic!("{other:?}"),
    }
}

#[test]
fn exchange_writes_waits_and_answers() {
    let request: Vec<u8> = (0u8..40).collect();
    let mut exchange = Snapi::write_attribute_command(&request);
    let mut device = Snapi::new();
    let mut written = Vec::new();
    while let ExchangeAction::Write(command) = exchange.next() {
        assert_eq!(command.hid_output, HidOutput::Attribute);
        assert!(command.read_status);
        written.push(command.packet);
        exchange.confirm(Some(&[0x21, 0x0D, 0x01, 0x00])).unwrap();
    }
    assert_eq!(written.len(), 2);
    assert_eq!(written[0][1], 0xC0);
    assert_eq!(written[1][1], 0x00);
    assert!(exchange.receive(&mut device, Some(vec![0x27, 0x10, 2, 0, 0])).unwrap().is_none());
    assert!(matches!(
        exchange.receive(&mut device, Some(vec![0x27, 0x00, 1, 6])),
        Ok(Some(SnapiAttributeResponse::Store))
    ));
    match exchange.receive(&mut device, Some(vec![0x24, 0x10])) {
        Err(SnapiError::UnexpectedValue { value, name }) => {
            assert_eq!((value, name.as_str()), (0x24, "attribute"));
        }
        other => panic!("{other:?}"),
    }
    assert!(matches!(
        exchange.receive(&mut device, None),
        Err(SnapiError::Channel { name: "attribute response" })
    ));
}

#[test]
fn refused_packet_is_not_passed_over() {
    let mut exchange = Snapi::write_attribute_command(&[0, 6, 1, 0, 0, 0]);
    assert!(exchange.confirm(Some(&[0x21, 0x0D, 0x02, 0x00])).is_err());
    assert!(matches!(exchange.next(), ExchangeAction::Write(_)));
    assert!(exchange.confirm(None).is_err());
    assert!(exchange.confirm(Some(&[0x21, 0x0D, 0x01, 0x00])).is_ok());
    assert!(matches!(exchange.next(), ExchangeAction::Await));
}

fn done(step: AttributeReadStep) -> Result<Option<SnapiAttributeValue>, SnapiError> {
    match step {
        AttributeReadStep::Done(result) => result,
        AttributeReadStep::Continue(read) => panic!("{read:?}"),
    }
}

#[test]
fn short_value_is_read_at_once() {
    let read = Snapi::get_attribute(534);
    assert!(read.can_request());
    assert_eq!(read.request(), [0x00, 0x06, 0x02, 0x00, 0x02, 0x16]);
    let value = Some(SnapiAttributeValue::Word(7));
    assert!(matches!(
        done(read.step(Ok(SnapiAttributeResponse::Get(value)))),
        Ok(Some(SnapiAttributeValue::Word(7)))
    ));
    assert!(matches!(
        done(Snapi::get_attribute(1).step(Ok(SnapiAttributeResponse::Store))),
        Err(SnapiError::MismatchedData { name: "attribute get" })
    ));
    assert!(matches!(
        done(Snapi::get_attribute(1).step(Err(SnapiError::TooShort { expected: 9, actual: 8 }))),
        Err(SnapiError::TooShort { expected: 9, actual: 8 })
    ));
}

#[test]
fn long_value_is_read_piece_by_piece() {
    let first = Err(SnapiError::PartialData { expected: 5, got: vec![1, 2] });
    let read = match Snapi::get_attribute(534).step(first) {
        AttributeReadStep::Continue(read) => read,
        other => panic!("{other:?}"),
    };
    assert_eq!(read.request(), [0x00, 0x08, 0x04, 0x00, 0x02, 0x16, 0x00, 0x02]);
    let read = match read.step(Ok(SnapiAttributeResponse::GetOffset(vec![3]))) {
        AttributeReadStep::Continue(read) => read,
        other => panic!("{other:?}"),
    };
    assert_eq!(read.request(), [0x00, 0x08, 0x04, 0x00, 0x02, 0x16, 0x00, 0x03]);
    match done(read.step(Ok(SnapiAttributeResponse::GetOffset(vec![4, 5])))) {
        Ok(Some(SnapiAttributeValue::Array(bytes))) => assert_eq!(bytes, [1, 2, 3, 4, 5]),
        other => panic!("{other:?}"),
    }
}

#[test]
fn long_attribute_is_fetched_from_its_answers() {
    let value: Vec<u8> = (0..300).map(|i| i as u8).collect();
    let mut first = vec![0, 0, 2, 0, 2, 0x16, b'A', 0, 0, 0x01, 0x2C, 0, 0];
    first.extend_from_slice(&value[..100]);
    let mut step = Snapi::get_attribute(534).step(SnapiAttributeResponse::decode(&first));
    let mut requests = 0;
    let fetched = loop {
        match step {
            AttributeReadStep::Continue(read) => {
                let request = read.request();
                let offset = usize::from(u16::from_be_bytes([request[6], request[7]]));
                let mut answer = vec![0, 0, 4, 0, 0, 0, 0, 0, 0, 0, 0, 0, 0];
                answer.extend_from_slice(&value[offset..(offset + 150).min(300)]);
                step = read.step(SnapiAttributeResponse::decode(&answer));
                requests += 1;
            }
            AttributeReadStep::Done(result) => break result.unwrap().unwrap(),
        }
    };
    assert_eq!(requests, 2);
    match fetched {
        SnapiAttributeValue::Array(bytes) => assert_eq!(bytes, value),
        other => panic!("{other:?}"),
    }
}

#[test]
fn long_value_with_another_answer_is_an_error() {
    let partial = || {
        let first = Err(SnapiError::PartialData { expected: 5, got: vec![1, 2] });
        match Snapi::get_attribute(534).step(first) {
            AttributeReadStep::Continue(read) => read,
            other => panic!("{other:?}"),
        }
    };
    assert!(matches!(
        done(partial().step(Ok(SnapiAttributeResponse::Get(None)))),
        Err(SnapiError::MismatchedData { name: "attribute get offset" })
    ));
    assert!(matches!(
        done(partial().step(Err(SnapiError::PartialData { expected: 9, got: vec![] }))),
        Err(SnapiError::PartialData { expected: 9, .. })
    ));
    let huge = Err(SnapiError::PartialData { expected: 70000, got: vec![0; 66000] });
    match Snapi::get_attribute(534).step(huge) {
        AttributeReadStep::Continue(read) => assert!(!read.can_request()),
        other => panic!("{other:?}"),
    }
}

#[test]
fn all_ids_are_found() {
    let mut scan = Snapi::get_all_attribute_ids();
    assert_eq!(scan.request(), [0x00, 0x06, 0x01, 0x00, 0x00, 0x00]);
    assert!(!scan.receive(vec![1, 2, 9]));
    assert_eq!(scan.request(), [0x00, 0x06, 0x01, 0x00, 0x00, 0x0A]);
    assert!(!scan.receive(vec![300]));
    assert_eq!(scan.request(), [0x00, 0x06, 0x01, 0x00, 0x01, 0x2D]);
    assert!(scan.receive(vec![301, 0xFFFF]));
    assert_eq!(scan.into_ids(), [1, 2, 9, 300, 301]);

    let mut scan = Snapi::get_all_attribute_ids();
    assert!(!scan.receive(vec![4]));
    assert!(scan.receive(vec![]));
    assert_eq!(scan.into_ids(), [4]);
}

#[test]
fn reports_go_to_those_who_wait() {
    let mut pending: Pending<&str, &str> = Pending::new();
    assert!(matches!(pending.handle_read(&[0x21, 0]), Ok(Route::Others)));
    pending.input_single(HidInput::Status, "one");
    pending.input_multi(HidInput::Attribute, "many");
    assert!(matches!(pending.handle_read(&[0x22]), Ok(Route::Others)));
    assert!(matches!(pending.handle_read(&[0x27]), Ok(Route::Multiple)));
    assert!(matches!(pending.handle_read(&[0x27]), Ok(Route::Multiple)));
    assert_eq!(pending.multiple(HidInput::Attribute), Some(&"many"));
    assert_eq!(pending.multiple(HidInput::Status), None);
    assert_eq!(pending.multiple(HidInput::Barcode), None);
    assert!(matches!(pending.handle_read(&[0x21]), Ok(Route::Single("one"))));
    assert!(matches!(
        pending.handle_read(&[0x21]),
        Err(SnapiError::Channel { name: "already used single use pending sender" })
    ));
    pending.finish(HidInput::Status);
    pending.finish(HidInput::Attribute);
    assert!(matches!(pending.handle_read(&[0x21]), Ok(Route::Others)));
    assert!(matches!(pending.handle_read(&[0x27]), Ok(Route::Others)));
}

#[test]
fn unknown_kind_is_no_other_kind() {
    let mut pending: Pending<u8, u8> = Pending::new();
    pending.input_single(HidInput::Unknown(0x21), 1);
    assert!(matches!(pending.send_for_input(HidInput::Status), Ok(Route::Others)));
    assert!(matches!(
        pending.send_for_input(HidInput::Unknown(0x21)),
        Ok(Route::Single(1))
    ));
}

#[test]
fn undelivered_reports_are_named() {
    assert!(matches!(
        Route::<u8>::Others.undelivered(),
        SnapiError::Channel { name: "others" }
    ));
    assert!(matches!(
        Route::Single(1).undelivered(),
        SnapiError::Channel { name: "pending single" }
    ));
    assert!(matches!(
        Route::<u8>::Multiple.undelivered(),
        SnapiError::Channel { name: "pending multiple" }
    ));
    assert!(matches!(
        SnapiError::usb("stalled".to_string()),
        SnapiError::Usb { message } if message == "stalled"
    ));
}

#[test]
fn image_is_put_together() {
    let mut header = vec![0u8; HEADER_LEN];
    header[0] = 5;
    header[31] = 9;
    let reader = UsbReader::new(SnapiMode::Image);
    assert!(reader.can_cancel());
    assert!(reader.can_receive(&header[..20], 20));
    let (reader, data) = reader.receive(&header[..20], 20);
    assert!(data.is_none());
    assert!(reader.can_cancel());
    assert_eq!(reader.expected(), None);
    let (reader, data) = reader.receive(&header[20..], 12);
    assert!(data.is_none());
    assert!(!reader.can_cancel());
    assert_eq!(reader.expected(), Some(5));
    let (reader, data) = reader.receive(&[1, 2, 3, 99], 3);
    assert!(data.is_none());
    let (reader, data) = reader.receive(&[4, 5, 99], 2);
    let data = data.unwrap();
    assert_eq!(data.mode, SnapiMode::Image);
    assert_eq!(data.header, header);
    assert_eq!(data.body, [1, 2, 3, 4, 5]);
    assert!(reader.can_cancel());
}

#[test]
fn transfer_behind_the_header_begins_the_data() {
    let mut buffer = vec![0u8; HEADER_LEN];
    buffer[0] = 4;
    buffer.extend_from_slice(&[1, 2, 3, 99, 99]);
    let reader = UsbReader::new(SnapiMode::Video);
    assert!(!reader.can_receive(&buffer, 38));
    assert!(reader.can_receive(&buffer, 35));
    let (reader, data) = reader.receive(&buffer, 35);
    assert!(data.is_none());
    assert_eq!(reader.expected(), Some(4));
    let (_, data) = reader.receive(&[7, 99], 1);
    let data = data.unwrap();
    assert_eq!(data.header, buffer[..32]);
    assert_eq!(data.body, [1, 2, 3, 7]);

    buffer[0] = 2;
    assert!(UsbReader::new(SnapiMode::Video).can_receive(&buffer, 34));
    assert!(!UsbReader::new(SnapiMode::Video).can_receive(&buffer, 35));
}

#[test]
fn data_of_no_length_takes_another_transfer() {
    let header = [0u8; HEADER_LEN];
    let (reader, data) = UsbReader::new(SnapiMode::Image).receive(&header, 32);
    assert!(data.is_none());
    let (_, data) = reader.receive(&[1, 2], 0);
    assert!(data.unwrap().body.is_empty());
}

#[test]
fn usb_device_is_attached_step_by_step() {
    let endpoint = |address, mode| UsbStep::ReadEndpoint {
        interface: 1,
        address,
        buffer_len: 4096,
        mode,
    };
    assert_eq!(
        Snapi::attach_usb_device(),
        [
            UsbStep::SelectConfiguration { configuration: 1 },
            UsbStep::ClaimInterface { interface: 1 },
            endpoint(0x82, SnapiMode::Image),
            endpoint(0x83, SnapiMode::Video),
        ]
    );
}

#[test]
fn outputs_are_delivered_until_an_error() {
    assert!(matches!(after_packet::<u8, u8>(Ok(Some(3))), PacketStep::Deliver(3)));
    assert!(matches!(after_packet::<u8, u8>(Ok(None)), PacketStep::Wait));
    assert!(matches!(after_packet::<u8, u8>(Err(4)), PacketStep::Stop(4)));
}
