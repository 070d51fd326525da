//! Failures that the serial transport reports to its host.

use vstd::prelude::*;

verus! {

/// Every way in which creating or running the transport can fail.
///
/// `code` is the operating system's error number for the failed call, or 0
/// where the system gave none.
#[derive(Debug, Clone, Copy, PartialEq, Eq, Structural)]
pub enum TtyError {
    /// The operating system could not list its serial devices.
    Enumeration,
    /// No listed device has the configured name.
    DeviceNotFound,
    /// The standard open sequence failed.
    Open { code: i32 },
    /// The specialized open sequence for quirky hardware failed.
    QuirkOpen { code: i32 },
    /// A read or write on the opened link failed with something other than
    /// "would block".
    TransportIo { code: i32 },
}

impl TtyError {
    /// The operating system's error number carried by this error, if it has one.
    pub open spec fn spec_os_code(self) -> Option<i32> {
        match self {
            TtyError::Enumeration => None,
            TtyError::DeviceNotFound => None,
            TtyError::Open { code } => Some(code),
            TtyError::QuirkOpen { code } => Some(code),
            TtyError::TransportIo { code } => Some(code),
        }
    }

    /// The operating system's error number carried by this error, if it has one.
    #[verifier::when_used_as_spec(spec_os_code)]
    pub fn os_code(self) -> (code: Option<i32>)
        ensures
            code == self.spec_os_code(),
    {
        match self {
            TtyError::Enumeration => None,
            TtyError::DeviceNotFound => None,
            TtyError::Open { code } => Some(code),
            TtyError::QuirkOpen { code } => Some(code),
            TtyError::TransportIo { code } => Some(code),
        }
    }
}

} // verus!
