//! The configuration of a serial link: which device to open and with which
//! line parameters.

use vstd::prelude::*;

verus! {

/// The operating system the transport runs on, as far as its behaviour
/// depends on it.
#[derive(Debug, Clone, Copy, PartialEq, Eq, Structural)]
pub enum Platform {
    MacOs,
    Ios,
    Linux,
    FreeBsd,
    OpenBsd,
    Windows,
    /// Any other system.
    Other,
}

/// Number of bits per character.
#[derive(Debug, Clone, Copy, PartialEq, Eq, Structural)]
pub enum DataBits {
    Five,
    Six,
    Seven,
    Eight,
}

/// Flow control mode of the line.
#[derive(Debug, Clone, Copy, PartialEq, Eq, Structural)]
pub enum FlowControl {
    /// No flow control.
    Off,
    /// XON/XOFF bytes.
    Software,
    /// RTS/CTS signals.
    Hardware,
}

/// Parity checking mode of the line.
#[derive(Debug, Clone, Copy, PartialEq, Eq, Structural)]
pub enum Parity {
    /// No parity bit.
    Off,
    Odd,
    Even,
}

/// Number of stop bits after each character.
#[derive(Debug, Clone, Copy, PartialEq, Eq, Structural)]
pub enum StopBits {
    One,
    Two,
}

/// Baud rate of a default configuration.
pub const DEFAULT_BAUDRATE: u32 = 115200;

/// Number of nanoseconds in one second.
pub const NANOS_PER_SEC: u32 = 1_000_000_000;

/// A span of time: whole seconds and the nanoseconds beyond them.
///
/// The nanosecond part is always below one second.
#[derive(Debug, Clone, Copy, PartialEq, Eq, Structural)]
pub struct Timeout {
    secs: u64,
    subsec_nanos: u32,
}

impl Timeout {
    #[verifier::type_invariant]
    spec fn normalized(self) -> bool {
        self.subsec_nanos < NANOS_PER_SEC
    }

    /// The whole seconds of the span.
    pub closed spec fn spec_secs(self) -> u64 {
        self.secs
    }

    /// The nanoseconds of the span beyond its whole seconds.
    pub closed spec fn spec_subsec_nanos(self) -> u32 {
        self.subsec_nanos
    }

    /// The span in nanoseconds.
    pub open spec fn nanos(self) -> nat {
        (self.spec_secs() * NANOS_PER_SEC + self.spec_subsec_nanos()) as nat
    }

    /// A span is its seconds and its nanoseconds: two spans that agree in
    /// both are the same span.
    pub proof fn lemma_parts_make_the_span(self, other: Timeout)
        requires
            self.spec_secs() == other.spec_secs(),
            self.spec_subsec_nanos() == other.spec_subsec_nanos(),
        ensures
            self == other,
    {
    }

    /// The span of `secs` seconds and `subsec_nanos` nanoseconds, or `None`
    /// where `subsec_nanos` is a second or more.
    pub fn new(secs: u64, subsec_nanos: u32) -> (t: Option<Timeout>)
        ensures
            subsec_nanos < NANOS_PER_SEC <==> t is Some,
            t matches Some(t) ==> t.spec_secs() == secs && t.spec_subsec_nanos() == subsec_nanos,
    {
        if subsec_nanos < NANOS_PER_SEC {
            Some(Timeout { secs, subsec_nanos })
        } else {
            None
        }
    }

    /// The span of `millis` milliseconds.
    pub closed spec fn spec_from_millis(millis: u64) -> Timeout {
        Timeout { secs: millis / 1000, subsec_nanos: ((millis % 1000) * 1_000_000) as u32 }
    }

    /// The span of `millis` milliseconds.
    #[verifier::when_used_as_spec(spec_from_millis)]
    pub fn from_millis(millis: u64) -> (t: Timeout)
        ensures
            t == Timeout::spec_from_millis(millis),
            t.spec_secs() == millis / 1000,
            t.spec_subsec_nanos() == (millis % 1000) * 1_000_000,
    {
        let secs: u64 = millis / 1000;
        let rest: u64 = millis % 1000;
        let subsec_nanos: u32 = (rest as u32) * 1_000_000;
        Timeout { secs, subsec_nanos }
    }

    /// The whole seconds of the span.
    #[verifier::when_used_as_spec(spec_secs)]
    pub fn secs(self) -> (s: u64)
        ensures
            s == self.spec_secs(),
    {
        self.secs
    }

    /// The nanoseconds of the span beyond its whole seconds; below one second.
    #[verifier::when_used_as_spec(spec_subsec_nanos)]
    pub fn subsec_nanos(self) -> (n: u32)
        ensures
            n == self.spec_subsec_nanos(),
            n < NANOS_PER_SEC,
    {
        proof {
            use_type_invariant(&self);
        }
        self.subsec_nanos
    }
}

/// Desired parameters of a serial link.
///
/// A value is plain data: the update methods take it by value and hand back
/// the changed value.
#[derive(Debug, Clone)]
pub struct SerialTtyOptions {
    /// Path or logical name of the device.
    pub name: String,
    /// Symbols per second.
    pub baud_rate: u32,
    pub data_bits: DataBits,
    pub flow_control: FlowControl,
    pub parity: Parity,
    pub stop_bits: StopBits,
    /// Read timeout. Advisory only: the link is never read in blocking mode.
    pub timeout: Timeout,
    /// Level of the DTR line on open; `None` leaves the choice to the
    /// transport, which asserts the line.
    pub dtr_on_open: Option<bool>,
}

/// What a [`SerialTtyOptions`] value holds, with its name as a sequence of
/// characters.
pub struct OptionsView {
    pub name: Seq<char>,
    pub baud_rate: u32,
    pub data_bits: DataBits,
    pub flow_control: FlowControl,
    pub parity: Parity,
    pub stop_bits: StopBits,
    pub timeout: Timeout,
    pub dtr_on_open: Option<bool>,
}

impl View for SerialTtyOptions {
    type V = OptionsView;

    open spec fn view(&self) -> OptionsView {
        OptionsView {
            name: self.name@,
            baud_rate: self.baud_rate,
            data_bits: self.data_bits,
            flow_control: self.flow_control,
            parity: self.parity,
            stop_bits: self.stop_bits,
            timeout: self.timeout,
            dtr_on_open: self.dtr_on_open,
        }
    }
}

impl PartialEq for SerialTtyOptions {
    fn eq(&self, other: &Self) -> (r: bool) {
        self.name == other.name && self.baud_rate == other.baud_rate && self.data_bits
            == other.data_bits && self.flow_control == other.flow_control && self.parity
            == other.parity && self.stop_bits == other.stop_bits && self.timeout == other.timeout
            && self.dtr_on_open == other.dtr_on_open
    }
}

impl vstd::std_specs::cmp::PartialEqSpecImpl for SerialTtyOptions {
    open spec fn obeys_eq_spec() -> bool {
        true
    }

    open spec fn eq_spec(&self, other: &Self) -> bool {
        self@ == other@
    }
}

impl Eq for SerialTtyOptions {

}

/// The device that a default configuration names on `platform`.
pub open spec fn default_device_name(platform: Platform) -> Seq<char> {
    match platform {
        Platform::MacOs => "/dev/cu.usbserial-2110"@,
        Platform::Linux => "/dev/ttyUSB0"@,
        Platform::FreeBsd => "/dev/cuaU0"@,
        Platform::OpenBsd => "/dev/ttyU0"@,
        Platform::Windows => "COM3"@,
        Platform::Ios => "/dev/ttyS0"@,
        Platform::Other => "/dev/ttyS0"@,
    }
}

/// The device that a default configuration names on `platform`.
pub fn default_tty_path(platform: Platform) -> (path: &'static str)
    ensures
        path@ == default_device_name(platform),
{
    match platform {
        Platform::MacOs => "/dev/cu.usbserial-2110",
        Platform::Linux => "/dev/ttyUSB0",
        Platform::FreeBsd => "/dev/cuaU0",
        Platform::OpenBsd => "/dev/ttyU0",
        Platform::Windows => "COM3",
        Platform::Ios => "/dev/ttyS0",
        Platform::Other => "/dev/ttyS0",
    }
}

impl SerialTtyOptions {
    /// The configuration names a device and has a positive baud rate. The
    /// update methods accept any name and rate; whether a device can be
    /// opened with them is for the operating system to say.
    pub open spec fn spec_is_valid(&self) -> bool {
        self.name@.len() > 0 && self.baud_rate > 0
    }

    /// Whether the configuration names a device and has a positive baud rate.
    #[verifier::when_used_as_spec(spec_is_valid)]
    pub fn is_valid(&self) -> (valid: bool)
        ensures
            valid == self.spec_is_valid(),
    {
        !self.name.as_str().is_empty() && self.baud_rate > 0
    }

    /// The default configuration on `platform`: the platform's default
    /// device, 115200 baud, 8 data bits, no flow control, no parity, one stop
    /// bit, a zero timeout and DTR asserted on open.
    pub fn default_for(platform: Platform) -> (options: Self)
        ensures
            options@ == (OptionsView {
                name: default_device_name(platform),
                baud_rate: DEFAULT_BAUDRATE,
                data_bits: DataBits::Eight,
                flow_control: FlowControl::Off,
                parity: Parity::Off,
                stop_bits: StopBits::One,
                timeout: Timeout::from_millis(0),
                dtr_on_open: Some(true),
            }),
    {
        Self {
            name: default_tty_path(platform).to_owned(),
            baud_rate: DEFAULT_BAUDRATE,
            data_bits: DataBits::Eight,
            flow_control: FlowControl::Off,
            parity: Parity::Off,
            stop_bits: StopBits::One,
            timeout: Timeout::from_millis(0),
            dtr_on_open: Some(true),
        }
    }

    /// The same configuration for the device `path`.
    #[must_use]
    pub fn set_name(self, path: &str) -> (options: Self)
        ensures
            options@ == (OptionsView { name: path@, ..self@ }),
    {
        let mut options = self;
        options.name = path.to_owned();
        options
    }

    /// The same configuration at `baud_rate` symbols per second.
    #[must_use]
    pub fn set_baud_rate(self, baud_rate: u32) -> (options: Self)
        ensures
            options@ == (OptionsView { baud_rate, ..self@ }),
    {
        let mut options = self;
        options.baud_rate = baud_rate;
        options
    }

    /// The same configuration with `data_bits` bits per character.
    #[must_use]
    pub fn set_data_bits(self, data_bits: DataBits) -> (options: Self)
        ensures
            options@ == (OptionsView { data_bits, ..self@ }),
    {
        let mut options = self;
        options.data_bits = data_bits;
        options
    }

    /// The same configuration with the flow control mode `flow_control`.
    #[must_use]
    pub fn set_flow_control(self, flow_control: FlowControl) -> (options: Self)
        ensures
            options@ == (OptionsView { flow_control, ..self@ }),
    {
        let mut options = self;
        options.flow_control = flow_control;
        options
    }

    /// The same configuration with the parity mode `parity`.
    #[must_use]
    pub fn set_parity(self, parity: Parity) -> (options: Self)
        ensures
            options@ == (OptionsView { parity, ..self@ }),
    {
        let mut options = self;
        options.parity = parity;
        options
    }

    /// The same configuration with `stop_bits` stop bits.
    #[must_use]
    pub fn set_stop_bits(self, stop_bits: StopBits) -> (options: Self)
        ensures
            options@ == (OptionsView { stop_bits, ..self@ }),
    {
        let mut options = self;
        options.stop_bits = stop_bits;
        options
    }

    /// The same configuration with the read timeout `timeout`.
    #[must_use]
    pub fn set_timeout(self, timeout: Timeout) -> (options: Self)
        ensures
            options@ == (OptionsView { timeout, ..self@ }),
    {
        let mut options = self;
        options.timeout = timeout;
        options
    }
}

} // verus!
