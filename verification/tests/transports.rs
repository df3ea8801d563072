use scanners_and_such::transports::hid::{frame_input_report, WebHidError};
use scanners_and_such::transports::usb::{endpoint_number, Interfaces, UsbError};
use scanners_and_such::transports::UsbFilter;

#[test]
fn devices_are_selected_by_both_numbers() {
    let filters = [
        UsbFilter { vendor_id: 1, product_id: 2 },
        UsbFilter { vendor_id: 3, product_id: 4 },
    ];
    assert!(UsbFilter::any_accepts(&filters, 1, 2));
    assert!(UsbFilter::any_accepts(&filters, 3, 4));
    assert!(!UsbFilter::any_accepts(&filters, 1, 4));
    assert!(!UsbFilter::any_accepts(&[], 1, 2));
}

#[test]
fn web_error_keeps_its_message() {
    assert_eq!(WebHidError::new("gone".to_string()).message, "gone");
}

#[test]
fn input_report_starts_with_its_number() {
    assert_eq!(frame_input_report(0x21, &[1, 2, 3], 3).unwrap(), [0x21, 1, 2, 3]);
    assert_eq!(frame_input_report(0x21, &[1, 2, 3], 2).unwrap(), [0x21, 1, 2, 3]);
    assert_eq!(
        frame_input_report(0x21, &[0; 130], 32).unwrap_err().message,
        "packet length 130 was greater than buffer length 32"
    );
    assert_eq!(
        frame_input_report(0x21, &[0; 2], 0).unwrap_err().message,
        "packet length 2 was greater than buffer length 0"
    );
}

#[test]
fn interfaces_are_claimed_and_released() {
    let mut interfaces = Interfaces::new();
    assert!(!interfaces.is_claimed(1));
    assert_eq!(
        interfaces.claimed(1),
        Err(UsbError::UnclaimedInterface { interface: 1 })
    );
    interfaces.claim_interface(1, "first");
    interfaces.claim_interface(2, "second");
    assert!(interfaces.is_claimed(1));
    assert_eq!(interfaces.claimed(1), Ok(&"first"));
    interfaces.release_interface(1);
    assert!(interfaces.claimed(1).is_err());
    assert_eq!(interfaces.claimed(2), Ok(&"second"));
}

#[test]
fn endpoint_numbers_have_no_direction() {
    assert_eq!(endpoint_number(0x82), 2);
    assert_eq!(endpoint_number(0x1F), 15);
}
