use serial_tty::{find_port, resolve, Platform, PortDescriptor, PortKind, SerialTtyOptions, TtyError};

fn usb(name: &str, manufacturer: Option<&str>) -> PortDescriptor {
    PortDescriptor {
        name: String::from(name),
        kind: PortKind::Usb { manufacturer: manufacturer.map(String::from) },
    }
}

fn generic(name: &str) -> PortDescriptor {
    PortDescriptor { name: String::from(name), kind: PortKind::Generic }
}

fn options(name: &str) -> SerialTtyOptions {
    SerialTtyOptions::default_for(Platform::Linux).set_name(name)
}

#[test]
fn resolve_returns_the_device_of_the_configured_name() {
    let listed = Some(vec![
        generic("/dev/ttyS0"),
        usb("/dev/ttyUSB0", Some("FTDI")),
        usb("/dev/ttyUSB1", None),
    ]);
    let found = resolve(&options("/dev/ttyUSB0"), &listed);
    assert_eq!(found, Ok(&usb("/dev/ttyUSB0", Some("FTDI"))));
    let found = resolve(&options("/dev/ttyUSB1"), &listed);
    assert_eq!(found, Ok(&usb("/dev/ttyUSB1", None)));
    let found = resolve(&options("/dev/ttyS0"), &listed);
    assert_eq!(found, Ok(&generic("/dev/ttyS0")));
}

#[test]
fn resolve_fails_for_a_name_that_is_not_listed() {
    let listed = Some(vec![generic("/dev/ttyS0"), usb("/dev/ttyUSB0", None)]);
    assert_eq!(resolve(&options("/dev/ttyUSB2"), &listed), Err(TtyError::DeviceNotFound));
}

#[test]
fn resolve_never_falls_back_to_a_similar_name() {
    let listed = Some(vec![usb("/dev/ttyUSB0", None), usb("/dev/ttyUSB10", None)]);
    for name in ["/dev/ttyUSB", "/dev/ttyUSB1", "/dev/ttyusb0", "/DEV/TTYUSB0", "ttyUSB0", "/dev/ttyUSB0 ", ""] {
        assert_eq!(resolve(&options(name), &listed), Err(TtyError::DeviceNotFound), "{name:?}");
    }
}

#[test]
fn resolve_fails_on_an_empty_listing() {
    let listed = Some(Vec::new());
    assert_eq!(resolve(&options("/dev/ttyUSB0"), &listed), Err(TtyError::DeviceNotFound));
}

#[test]
fn resolve_reports_a_failed_enumeration() {
    assert_eq!(resolve(&options("/dev/ttyUSB0"), &None), Err(TtyError::Enumeration));
}

#[test]
fn resolve_returns_the_first_of_two_devices_with_one_name() {
    let listed = Some(vec![
        usb("COM3", Some("first")),
        generic("COM3"),
        usb("COM3", Some("third")),
    ]);
    let found = resolve(&options("COM3"), &listed).unwrap();
    assert_eq!(found, &usb("COM3", Some("first")));
    assert!(std::ptr::eq(found, &listed.as_ref().unwrap()[0]));
}

#[test]
fn find_port_gives_the_first_index_of_a_name() {
    let ports = vec![generic("a"), generic("b"), generic("a"), generic("c")];
    assert_eq!(find_port(&ports, &String::from("a")), Some(0));
    assert_eq!(find_port(&ports, &String::from("b")), Some(1));
    assert_eq!(find_port(&ports, &String::from("c")), Some(3));
    assert_eq!(find_port(&ports, &String::from("d")), None);
    assert_eq!(find_port(&Vec::new(), &String::from("a")), None);
}

#[test]
fn the_errors_of_resolution_carry_no_system_code() {
    assert_eq!(TtyError::Enumeration.os_code(), None);
    assert_eq!(TtyError::DeviceNotFound.os_code(), None);
    assert_eq!(TtyError::Open { code: 13 }.os_code(), Some(13));
    assert_eq!(TtyError::QuirkOpen { code: 16 }.os_code(), Some(16));
    assert_eq!(TtyError::TransportIo { code: -5 }.os_code(), Some(-5));
}
