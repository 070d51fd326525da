//! Turning a configuration into the serial-port crate's own description
//! of a port.

use crate::config::{DataBits, FlowControl, Parity, SerialTtyOptions, StopBits, Timeout};
use mio_serial::{
    DataBits as LineBits, FlowControl as LineFlow, Parity as LineParity, StopBits as LineStop,
};
use vstd::prelude::*;

verus! {

/// The port description of `mio_serial`. Nothing is known of its inside.
#[verifier::external_type_specification]
#[verifier::external_body]
pub struct ExSerialPortBuilder(mio_serial::SerialPortBuilder);

/// The description that `mio_serial::new` gives for `path` and `baud_rate`
/// after its setters `data_bits`, `flow_control`, `parity`, `stop_bits`,
/// `timeout` and `dtr_on_open` were applied with the other values.
pub uninterp spec fn port_builder(
    path: Seq<char>,
    baud_rate: u32,
    data_bits: DataBits,
    flow_control: FlowControl,
    parity: Parity,
    stop_bits: StopBits,
    timeout: Timeout,
    dtr_on_open: bool,
) -> mio_serial::SerialPortBuilder;

/// Calls `mio_serial::new` and the six setters of the description it
/// returns. Assumed: the description is a function of the values handed in,
/// which [`port_builder`] names. Each setter stores its argument and nothing
/// else; none of the calls can fail.
#[verifier::external_body]
fn build_port(
    path: &str,
    baud_rate: u32,
    data_bits: DataBits,
    flow_control: FlowControl,
    parity: Parity,
    stop_bits: StopBits,
    timeout: Timeout,
    dtr_on_open: bool,
) -> (builder: mio_serial::SerialPortBuilder)
    ensures
        builder == port_builder(
            path@,
            baud_rate,
            data_bits,
            flow_control,
            parity,
            stop_bits,
            timeout,
            dtr_on_open,
        ),
{
    mio_serial::new(path, baud_rate)
        .data_bits(match data_bits { DataBits::Five => LineBits::Five, DataBits::Six => LineBits::Six, DataBits::Seven => LineBits::Seven, DataBits::Eight => LineBits::Eight })
        .flow_control(match flow_control { FlowControl::Off => LineFlow::None, FlowControl::Software => LineFlow::Software, FlowControl::Hardware => LineFlow::Hardware })
        .parity(match parity { Parity::Off => LineParity::None, Parity::Odd => LineParity::Odd, Parity::Even => LineParity::Even })
        .stop_bits(match stop_bits { StopBits::One => LineStop::One, StopBits::Two => LineStop::Two })
        .timeout(std::time::Duration::new(timeout.secs(), timeout.subsec_nanos()))
        .dtr_on_open(dtr_on_open)
}

impl SerialTtyOptions {
    /// The level to which the DTR line is set on open: the configured one,
    /// and asserted where none is configured.
    pub open spec fn spec_dtr_level(&self) -> bool {
        match self.dtr_on_open {
            Some(level) => level,
            None => true,
        }
    }

    /// The level to which the DTR line is set on open: the configured one,
    /// and asserted where none is configured.
    #[verifier::when_used_as_spec(spec_dtr_level)]
    pub fn dtr_level(&self) -> (level: bool)
        ensures
            level == self.spec_dtr_level(),
    {
        match self.dtr_on_open {
            Some(level) => level,
            None => true,
        }
    }

    /// The port description for this configuration: every parameter as
    /// configured, and the DTR level of [`SerialTtyOptions::dtr_level`].
    pub open spec fn builder(&self) -> mio_serial::SerialPortBuilder {
        port_builder(
            self.name@,
            self.baud_rate,
            self.data_bits,
            self.flow_control,
            self.parity,
            self.stop_bits,
            self.timeout,
            self.dtr_level(),
        )
    }

    /// The port description for this configuration: every parameter as
    /// configured, and the DTR level of [`SerialTtyOptions::dtr_level`].
    pub fn in_to_builder(&self) -> (builder: mio_serial::SerialPortBuilder)
        ensures
            builder == self.builder(),
    {
        build_port(
            self.name.as_str(),
            self.baud_rate,
            self.data_bits,
            self.flow_control,
            self.parity,
            self.stop_bits,
            self.timeout,
            self.dtr_level(),
        )
    }
}

impl<'a> From<&'a SerialTtyOptions> for mio_serial::SerialPortBuilder {
    fn from(val: &'a SerialTtyOptions) -> (builder: Self) {
        val.in_to_builder()
    }
}

impl<'a> vstd::std_specs::convert::FromSpecImpl<&'a SerialTtyOptions> for mio_serial::SerialPortBuilder {
    open spec fn obeys_from_spec() -> bool {
        true
    }

    open spec fn from_spec(val: &'a SerialTtyOptions) -> Self {
        val.builder()
    }
}

} // verus!
