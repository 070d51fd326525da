use serial_tty::{route, route_lowered, OpenStrategy, Platform, PortDescriptor, PortKind};

const PLATFORMS: [Platform; 7] = [
    Platform::MacOs,
    Platform::Ios,
    Platform::Linux,
    Platform::FreeBsd,
    Platform::OpenBsd,
    Platform::Windows,
    Platform::Other,
];

fn affected(platform: Platform) -> bool {
    matches!(platform, Platform::MacOs | Platform::Ios)
}

fn usb(manufacturer: Option<&str>) -> PortDescriptor {
    PortDescriptor {
        name: String::from("/dev/cu.usbserial-2110"),
        kind: PortKind::Usb { manufacturer: manufacturer.map(String::from) },
    }
}

fn generic() -> PortDescriptor {
    PortDescriptor { name: String::from("/dev/cu.usbserial-2110"), kind: PortKind::Generic }
}

#[test]
fn route_selects_specialized_only_for_marked_usb_devices_on_affected_platforms() {
    let marked = ["prolific", "Prolific Technology", "PROLIFIC TECHNOLOGY INC.", "by pRoLiFiC"];
    let unmarked = ["", "FTDI", "Silicon Labs", "prolifi", "rolific", "pro lific", "prolifi c"];
    for platform in PLATFORMS {
        for text in marked {
            let expected =
                if affected(platform) { OpenStrategy::Specialized } else { OpenStrategy::Standard };
            assert_eq!(route(&usb(Some(text)), platform), expected, "{text:?} on {platform:?}");
        }
        for text in unmarked {
            assert_eq!(route(&usb(Some(text)), platform), OpenStrategy::Standard);
        }
        assert_eq!(route(&usb(None), platform), OpenStrategy::Standard);
        assert_eq!(route(&generic(), platform), OpenStrategy::Standard);
    }
}

#[test]
fn prolific_on_the_affected_platform_takes_the_specialized_path() {
    let descriptor = usb(Some("Prolific Technology"));
    assert_eq!(route(&descriptor, Platform::MacOs), OpenStrategy::Specialized);
    assert_eq!(route(&descriptor, Platform::Linux), OpenStrategy::Standard);
}

#[test]
fn route_compares_without_regard_to_case() {
    assert_eq!(route(&usb(Some("PROLIFIC")), Platform::MacOs), OpenStrategy::Specialized);
    assert_eq!(route(&usb(Some("ProLific")), Platform::Ios), OpenStrategy::Specialized);
    assert_eq!(route(&usb(Some("prolific")), Platform::MacOs), OpenStrategy::Specialized);
}

#[test]
fn route_lowered_looks_for_the_marker_anywhere_in_the_text() {
    assert_eq!(route_lowered(true, "prolific", Platform::MacOs), OpenStrategy::Specialized);
    assert_eq!(route_lowered(true, "xprolificx", Platform::MacOs), OpenStrategy::Specialized);
    assert_eq!(route_lowered(true, "a prolific", Platform::Ios), OpenStrategy::Specialized);
    assert_eq!(route_lowered(true, "prolifi", Platform::MacOs), OpenStrategy::Standard);
    assert_eq!(route_lowered(true, "", Platform::MacOs), OpenStrategy::Standard);
    assert_eq!(route_lowered(true, "cifilorp", Platform::MacOs), OpenStrategy::Standard);
}

#[test]
fn route_lowered_takes_the_text_as_it_is() {
    assert_eq!(route_lowered(true, "PROLIFIC", Platform::MacOs), OpenStrategy::Standard);
    assert_eq!(route_lowered(true, "Prolific", Platform::MacOs), OpenStrategy::Standard);
}

#[test]
fn route_lowered_needs_usb_and_an_affected_platform() {
    for platform in PLATFORMS {
        assert_eq!(route_lowered(false, "prolific", platform), OpenStrategy::Standard);
        let expected =
            if affected(platform) { OpenStrategy::Specialized } else { OpenStrategy::Standard };
        assert_eq!(route_lowered(true, "prolific", platform), expected);
    }
}
