//! Matching the configured device name against the devices that the
//! operating system lists.

use crate::config::SerialTtyOptions;
use crate::error::TtyError;
use vstd::prelude::*;

verus! {

/// How a serial device is attached.
#[derive(Debug, Clone, PartialEq, Eq)]
pub enum PortKind {
    /// Attached over USB, with the manufacturer string where the device
    /// reports one.
    Usb { manufacturer: Option<String> },
    /// Anything else.
    Generic,
}

/// One device of an enumeration.
#[derive(Debug, Clone, PartialEq, Eq)]
pub struct PortDescriptor {
    /// The device's identifier, as a configuration names it.
    pub name: String,
    pub kind: PortKind,
}

/// `ports[i]` is the first device called `name`.
pub open spec fn is_first_match(ports: Seq<PortDescriptor>, name: Seq<char>, i: int) -> bool {
    &&& 0 <= i < ports.len()
    &&& ports[i].name@ == name
    &&& forall|j: int| 0 <= j < i ==> (#[trigger] ports[j]).name@ != name
}

/// Some device of `ports` is called `name`.
pub open spec fn has_match(ports: Seq<PortDescriptor>, name: Seq<char>) -> bool {
    exists|i: int| 0 <= i < ports.len() && (#[trigger] ports[i]).name@ == name
}

/// The index of the first device of `ports` called `name`, if there is one.
pub fn find_port(ports: &Vec<PortDescriptor>, name: &String) -> (index: Option<usize>)
    ensures
        index matches Some(i) ==> is_first_match(ports@, name@, i as int),
        index is Some <==> has_match(ports@, name@),
{
    let mut i: usize = 0;
    while i < ports.len()
        invariant
            i <= ports.len(),
            forall|j: int| 0 <= j < i ==> (#[trigger] ports@[j]).name@ != name@,
        decreases ports.len() - i,
    {
        if ports[i].name == *name {
            return Some(i);
        }
        i += 1;
    }
    None
}

/// Finds the device that `config` names in the outcome of an enumeration.
///
/// `enumeration` is `None` where the operating system could not list its
/// devices. The match is exact and case-sensitive; of several devices with
/// the configured name the first is returned. No other device is ever
/// returned in its place.
pub fn resolve<'a>(config: &SerialTtyOptions, enumeration: &'a Option<Vec<PortDescriptor>>) -> (found:
    Result<&'a PortDescriptor, TtyError>)
    ensures
        match (*enumeration, found) {
            (None, Err(error)) => error == TtyError::Enumeration,
            (None, Ok(_)) => false,
            (Some(ports), Err(error)) => error == TtyError::DeviceNotFound && !has_match(
                ports@,
                config.name@,
            ),
            (Some(ports), Ok(descriptor)) => exists|i: int|
                is_first_match(ports@, config.name@, i) && *descriptor == ports@[i],
        },
{
    match enumeration {
        None => Err(TtyError::Enumeration),
        Some(ports) => match find_port(ports, &config.name) {
            Some(i) => Ok(&ports[i]),
            None => Err(TtyError::DeviceNotFound),
        },
    }
}

} // verus!
