use serial_tty::{
    plan_open, LinkState, OpenProgress, OpenStep, OpenStrategy, Opener, Platform, PortDescriptor,
    PortKind, SerialTtyOptions, StepOutcome, TtyError,
};

const DONE: StepOutcome = StepOutcome::Done;

fn usb(name: &str, manufacturer: Option<&str>) -> PortDescriptor {
    PortDescriptor {
        name: String::from(name),
        kind: PortKind::Usb { manufacturer: manufacturer.map(String::from) },
    }
}

#[test]
fn the_steps_come_in_order_and_end_in_ready() {
    for strategy in [OpenStrategy::Standard, OpenStrategy::Specialized] {
        for level in [true, false] {
            let mut opener = Opener::begin(strategy, level);
            assert_eq!(opener.strategy(), strategy);
            assert_eq!(opener.progress(), OpenProgress::Perform(OpenStep::OpenDevice));
            opener.advance(DONE);
            assert_eq!(opener.progress(), OpenProgress::Perform(OpenStep::ForceNonBlocking));
            opener.advance(DONE);
            assert_eq!(opener.progress(), OpenProgress::Perform(OpenStep::SetDtr { level }));
            opener.advance(DONE);
            assert_eq!(opener.progress(), OpenProgress::Ready);
            let tty = opener.into_transport().unwrap();
            assert_eq!(tty.state(), LinkState::Registered);
            assert!(tty.pending().is_empty());
        }
    }
}

#[test]
fn no_link_before_every_step_is_done() {
    let mut opener = Opener::begin(OpenStrategy::Standard, true);
    assert!(opener.into_transport().is_none());
    opener.advance(DONE);
    assert!(opener.into_transport().is_none());
    opener.advance(DONE);
    assert!(opener.into_transport().is_none());
    opener.advance(DONE);
    assert!(opener.into_transport().is_some());
}

#[test]
fn a_failed_step_on_the_standard_path_is_an_open_error() {
    for done_before in 0..3 {
        let mut opener = Opener::begin(OpenStrategy::Standard, true);
        for _ in 0..done_before {
            opener.advance(DONE);
        }
        opener.advance(StepOutcome::Failed { code: 13 });
        assert_eq!(opener.progress(), OpenProgress::Failed(TtyError::Open { code: 13 }));
        assert!(opener.into_transport().is_none());
    }
}

#[test]
fn a_failed_step_on_the_specialized_path_is_a_quirk_open_error() {
    for done_before in 0..3 {
        let mut opener = Opener::begin(OpenStrategy::Specialized, false);
        for _ in 0..done_before {
            opener.advance(DONE);
        }
        opener.advance(StepOutcome::Failed { code: 16 });
        assert_eq!(opener.progress(), OpenProgress::Failed(TtyError::QuirkOpen { code: 16 }));
        assert!(opener.into_transport().is_none());
    }
}

#[test]
fn a_failed_non_blocking_step_never_yields_a_link() {
    let mut opener = Opener::begin(OpenStrategy::Standard, true);
    opener.advance(DONE);
    opener.advance(StepOutcome::Failed { code: 25 });
    opener.advance(DONE);
    opener.advance(DONE);
    opener.advance(DONE);
    assert_eq!(opener.progress(), OpenProgress::Failed(TtyError::Open { code: 25 }));
    assert!(opener.into_transport().is_none());
}

#[test]
fn reports_after_the_end_change_nothing() {
    let mut ready = Opener::begin(OpenStrategy::Standard, true);
    for _ in 0..3 {
        ready.advance(DONE);
    }
    ready.advance(StepOutcome::Failed { code: 5 });
    ready.advance(DONE);
    assert_eq!(ready.progress(), OpenProgress::Ready);

    let mut failed = Opener::begin(OpenStrategy::Specialized, true);
    failed.advance(StepOutcome::Failed { code: 2 });
    failed.advance(StepOutcome::Failed { code: 3 });
    failed.advance(DONE);
    assert_eq!(failed.progress(), OpenProgress::Failed(TtyError::QuirkOpen { code: 2 }));
}

#[test]
fn plan_open_starts_the_sequence_of_the_routed_strategy() {
    let config = SerialTtyOptions::default_for(Platform::MacOs);
    let listed = Some(vec![
        usb("/dev/cu.usbserial-10", Some("FTDI")),
        usb("/dev/cu.usbserial-2110", Some("Prolific Technology Inc.")),
    ]);
    let opener = plan_open(&config, &listed, Platform::MacOs).unwrap();
    assert_eq!(opener.strategy(), OpenStrategy::Specialized);
    assert_eq!(opener.progress(), OpenProgress::Perform(OpenStep::OpenDevice));

    let opener = plan_open(&config, &listed, Platform::Linux).unwrap();
    assert_eq!(opener.strategy(), OpenStrategy::Standard);

    let opener = plan_open(&config.set_name("/dev/cu.usbserial-10"), &listed, Platform::MacOs);
    assert_eq!(opener.unwrap().strategy(), OpenStrategy::Standard);
}

#[test]
fn plan_open_hands_the_configured_dtr_level_to_the_sequence() {
    let listed = Some(vec![usb("/dev/ttyUSB0", None)]);
    for (configured, level) in [(None, true), (Some(true), true), (Some(false), false)] {
        let config = SerialTtyOptions {
            dtr_on_open: configured,
            ..SerialTtyOptions::default_for(Platform::Linux)
        };
        let mut opener = plan_open(&config, &listed, Platform::Linux).unwrap();
        opener.advance(DONE);
        opener.advance(DONE);
        assert_eq!(opener.progress(), OpenProgress::Perform(OpenStep::SetDtr { level }));
    }
}

#[test]
fn an_absent_device_is_not_found_and_nothing_is_opened() {
    let config = SerialTtyOptions::default_for(Platform::Linux).set_name("/dev/ttyUSB7");
    let listed = Some(vec![usb("/dev/ttyUSB0", None), usb("/dev/ttyUSB1", None)]);
    let plan = plan_open(&config, &listed, Platform::Linux);
    assert_eq!(plan.err(), Some(TtyError::DeviceNotFound));
}

#[test]
fn a_failed_enumeration_opens_nothing() {
    let config = SerialTtyOptions::default_for(Platform::Linux);
    let plan = plan_open(&config, &None, Platform::Linux);
    assert_eq!(plan.err(), Some(TtyError::Enumeration));
}
