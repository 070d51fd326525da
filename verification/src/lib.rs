//! Serial-port transport for a terminal emulator: configuration, device
//! resolution, quirk routing, the open sequence and the event-loop state
//! machine of an opened link.
//!
//! The library decides; the host performs. All calls against the operating
//! system (listing devices, opening one, reading and writing) are the
//! host's, which reports their outcomes here and is told what to do next.

pub mod config;
pub mod error;
pub mod link;
pub mod opener;
pub mod port;
pub mod quirk;
pub mod resolver;
pub mod text;
pub mod transport;

pub use config::{
    default_tty_path, DataBits, FlowControl, OptionsView, Parity, Platform, SerialTtyOptions,
    StopBits, Timeout, DEFAULT_BAUDRATE,
};
pub use error::TtyError;
pub use link::{Action, Event, LinkState, TtyView};
pub use opener::{plan_open, OpenProgress, OpenStep, Opener, OpenerView, StepOutcome};
pub use quirk::{route, route_lowered, OpenStrategy};
pub use resolver::{find_port, resolve, PortDescriptor, PortKind};
pub use transport::{ReadOutcome, SerialTty, WriteOutcome};
