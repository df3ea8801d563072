use scanners_and_such::scanner::hid_pos::{HidPos, PACKET_LEN};

fn packet(data: &[u8], symbology: [u8; 3], continues: u8) -> Vec<u8> {
    let mut packet = vec![0u8; PACKET_LEN];
    packet[0] = 0x02;
    packet[1] = data.len() as u8;
    packet[2..5].copy_from_slice(&symbology);
    packet[5..5 + data.len()].copy_from_slice(data);
    packet[63] = continues;
    packet
}

#[test]
fn data_in_one_report_comes_out() {
    let mut device = HidPos::new();
    let data = device.receive(&packet(b"1234", *b"]E0", 0)).unwrap();
    assert_eq!(data.symbology_id, *b"]E0");
    assert_eq!(data.value, b"1234");
}

#[test]
fn data_in_several_reports_is_put_together() {
    let mut device = HidPos::new();
    let long = vec![b'x'; 56];
    assert!(device.receive(&packet(&long, *b"]C0", 1)).is_none());
    assert!(device.receive(&[0x03; 64]).is_none());
    assert!(device.receive(&packet(b"yz", *b"]C0", 2)).is_none());
    let data = device.receive(&packet(b"!", *b"]Q1", 0)).unwrap();
    assert_eq!(data.symbology_id, *b"]Q1");
    assert_eq!(data.value.len(), 59);
    assert!(data.value.ends_with(b"xyz!"));
    let next = device.receive(&packet(b"", *b"]E0", 0)).unwrap();
    assert!(next.value.is_empty());
}

#[test]
fn other_reports_are_passed_over() {
    let mut device = HidPos::new();
    assert!(device.receive(&[]).is_none());
    assert!(device.receive(&[0x02; 63]).is_none());
    assert!(device.receive(&[0x01; 64]).is_none());
    assert!(HidPos::can_receive(&[0xFF; 64]));
}

#[test]
fn report_may_not_tell_of_more_than_it_holds() {
    let mut report = packet(b"", *b"]E0", 0);
    report[1] = 59;
    assert!(HidPos::can_receive(&report));
    report[1] = 60;
    assert!(!HidPos::can_receive(&report));
}
