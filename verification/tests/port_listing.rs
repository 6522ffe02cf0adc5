use serial_console::{
    list_serial_ports, port_info, usb_description, DetectedPort, PortInfo, PortKind, SerialError,
};

fn detected(name: &str, kind: PortKind) -> DetectedPort {
    DetectedPort { name: name.to_string(), kind }
}

fn usb(manufacturer: Option<&str>) -> PortKind {
    PortKind::Usb { manufacturer: manufacturer.map(|name| name.to_string()) }
}

#[test]
fn usb_device_is_described_by_its_manufacturer() {
    let info = port_info(&detected("/dev/ttyUSB0", usb(Some("FTDI"))));
    assert_eq!(
        info,
        PortInfo {
            name: "/dev/ttyUSB0".to_string(),
            port_type: "USB".to_string(),
            description: Some("USB Device - Manufacturer: \"FTDI\"".to_string()),
        }
    );
}

#[test]
fn usb_device_without_manufacturer_is_unknown() {
    let info = port_info(&detected("COM7", usb(None)));
    assert_eq!(info.port_type, "USB");
    assert_eq!(info.description, Some("USB Device - Manufacturer: \"Unknown\"".to_string()));
}

#[test]
fn manufacturer_is_quoted_and_escaped() {
    let info = port_info(&detected("COM7", usb(Some("Acme \"Serial\"\tWorks\\"))));
    assert_eq!(
        info.description,
        Some("USB Device - Manufacturer: \"Acme \\\"Serial\\\"\\tWorks\\\\\"".to_string())
    );
    let empty = port_info(&detected("COM8", usb(Some(""))));
    assert_eq!(empty.description, Some("USB Device - Manufacturer: \"\"".to_string()));
}

#[test]
fn usb_description_prefixes_the_quoted_name() {
    assert_eq!(usb_description("\"Prolific\""), "USB Device - Manufacturer: \"Prolific\"");
    assert_eq!(usb_description(""), "USB Device - Manufacturer: ");
}

#[test]
fn other_kinds_have_a_label_and_no_description() {
    let bluetooth = port_info(&detected("rfcomm0", PortKind::Bluetooth));
    assert_eq!(bluetooth.port_type, "Bluetooth");
    assert_eq!(bluetooth.description, None);
    let pci = port_info(&detected("ttyS0", PortKind::Pci));
    assert_eq!(pci.port_type, "PCI");
    assert_eq!(pci.description, None);
    let unknown = port_info(&detected("ttyACM0", PortKind::Unknown));
    assert_eq!(unknown.port_type, "Unknown");
    assert_eq!(unknown.description, None);
    assert_eq!(unknown.name, "ttyACM0");
}

#[test]
fn listing_keeps_every_port_in_order() {
    let found = vec![
        detected("COM1", PortKind::Pci),
        detected("COM4", usb(Some("Arduino LLC"))),
        detected("COM9", PortKind::Bluetooth),
        detected("COM1", PortKind::Unknown),
    ];
    let listing = list_serial_ports(Ok(found)).unwrap();
    let names: Vec<&str> = listing.iter().map(|info| info.name.as_str()).collect();
    assert_eq!(names, vec!["COM1", "COM4", "COM9", "COM1"]);
    let types: Vec<&str> = listing.iter().map(|info| info.port_type.as_str()).collect();
    assert_eq!(types, vec!["PCI", "USB", "Bluetooth", "Unknown"]);
    assert_eq!(listing[1].description, Some("USB Device - Manufacturer: \"Arduino LLC\"".to_string()));
    assert_eq!(listing[0].description, None);
}

#[test]
fn listing_of_no_ports_is_empty() {
    assert_eq!(list_serial_ports(Ok(Vec::new())), Ok(Vec::new()));
}

#[test]
fn failed_enumeration_is_an_enumeration_error() {
    let listing = list_serial_ports(Err("Permission denied".to_string()));
    let error = SerialError::EnumerationError("Permission denied".to_string());
    assert_eq!(error.message(), "Permission denied");
    assert_eq!(listing, Err(error));
}
