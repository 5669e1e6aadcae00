use serial_session::ports::{
    device_name, hex16_bytes, port_type_label, trim_bytes, usb_device_name, PortKind,
};

#[test]
fn trimming_strips_ascii_whitespace_on_both_ends() {
    assert_eq!(trim_bytes(&b"  Acme Corp \t\r\n".to_vec()), b"Acme Corp".to_vec());
    assert_eq!(trim_bytes(&b"plain".to_vec()), b"plain".to_vec());
    assert_eq!(trim_bytes(&b"   ".to_vec()), Vec::<u8>::new());
    assert_eq!(trim_bytes(&Vec::new()), Vec::<u8>::new());
}

#[test]
fn hex_digits_are_uppercase_and_zero_padded() {
    assert_eq!(hex16_bytes(0x1A2B), b"1A2B".to_vec());
    assert_eq!(hex16_bytes(0x0001), b"0001".to_vec());
    assert_eq!(hex16_bytes(0xFFFF), b"FFFF".to_vec());
    assert_eq!(hex16_bytes(0), b"0000".to_vec());
}

#[test]
fn usb_name_joins_trimmed_manufacturer_and_product() {
    let name = usb_device_name(
        1,
        2,
        &Some(b" Acme ".to_vec()),
        &Some(b" Widget\t".to_vec()),
    );
    assert_eq!(name, b"Acme Widget".to_vec());
}

#[test]
fn usb_name_uses_whichever_descriptor_is_present() {
    assert_eq!(
        usb_device_name(1, 2, &Some(b"Acme".to_vec()), &None),
        b"Acme".to_vec()
    );
    assert_eq!(
        usb_device_name(1, 2, &None, &Some(b"Widget".to_vec())),
        b"Widget".to_vec()
    );
    // a blank descriptor counts as missing
    assert_eq!(
        usb_device_name(1, 2, &Some(b"  ".to_vec()), &Some(b"Widget".to_vec())),
        b"Widget".to_vec()
    );
}

#[test]
fn usb_name_falls_back_to_the_numeric_ids() {
    let name = usb_device_name(0x1A2B, 0x3C4D, &None, &None);
    assert_eq!(name, b"USB Serial (VID: 0x1A2B, PID: 0x3C4D)".to_vec());
}

#[test]
fn type_labels_name_each_kind() {
    let usb = PortKind::Usb { vid: 0x16C0, pid: 0x05E1, manufacturer: None, product: None };
    assert_eq!(port_type_label(&usb), b"USB - VID: 16C0, PID: 05E1".to_vec());
    assert_eq!(port_type_label(&PortKind::Pci), b"PCI".to_vec());
    assert_eq!(port_type_label(&PortKind::Bluetooth), b"Bluetooth".to_vec());
    assert_eq!(port_type_label(&PortKind::Unknown), b"Unknown".to_vec());
}

#[test]
fn device_names_cover_every_kind() {
    let usb = PortKind::Usb {
        vid: 1,
        pid: 2,
        manufacturer: Some(b"Acme".to_vec()),
        product: Some(b"Widget".to_vec()),
    };
    assert_eq!(device_name(&usb), b"Acme Widget".to_vec());
    assert_eq!(device_name(&PortKind::Pci), b"PCI Serial Port".to_vec());
    assert_eq!(device_name(&PortKind::Bluetooth), b"Bluetooth Serial Port".to_vec());
    assert_eq!(device_name(&PortKind::Unknown), b"Unknown Serial Device".to_vec());
}
