//! Choosing how to open a device: some USB-to-serial bridges need a
//! different open sequence on some operating systems.

use crate::config::Platform;
use crate::resolver::{PortDescriptor, PortKind};
use crate::text::{contains, is_infix, lowercase, to_lowercase};
use vstd::prelude::*;

verus! {

/// The sequence of calls by which a device is opened.
#[derive(Debug, Clone, Copy, PartialEq, Eq, Structural)]
pub enum OpenStrategy {
    /// The ordinary sequence.
    Standard,
    /// The sequence with the workarounds for quirky bridges.
    Specialized,
}

/// The bridges of known problematic vendors misbehave on `platform`.
pub open spec fn has_bridge_quirk(platform: Platform) -> bool {
    platform == Platform::MacOs || platform == Platform::Ios
}

/// A manufacturer string, already in lowercase, holds the marker of a
/// known problematic vendor.
pub open spec fn names_quirky_vendor(lowered: Seq<char>) -> bool {
    is_infix("prolific"@, lowered)
}

/// The manufacturer string of a device; empty where it reports none or is
/// not attached over USB.
pub open spec fn manufacturer_of(kind: PortKind) -> Seq<char> {
    match kind {
        PortKind::Usb { manufacturer: Some(text) } => text@,
        _ => Seq::empty(),
    }
}

/// The strategy for a device, from whether it is attached over USB, its
/// manufacturer string in lowercase and the platform.
pub open spec fn strategy_for(is_usb: bool, lowered: Seq<char>, platform: Platform) -> OpenStrategy {
    if is_usb && has_bridge_quirk(platform) && names_quirky_vendor(lowered) {
        OpenStrategy::Specialized
    } else {
        OpenStrategy::Standard
    }
}

/// Whether the bridges of known problematic vendors misbehave on `platform`.
pub fn platform_has_bridge_quirk(platform: Platform) -> (affected: bool)
    ensures
        affected == has_bridge_quirk(platform),
{
    match platform {
        Platform::MacOs => true,
        Platform::Ios => true,
        _ => false,
    }
}

/// Selects the open strategy from a manufacturer string that is already in
/// lowercase: the specialized one exactly for a USB device on an affected
/// platform whose manufacturer string holds a known vendor marker.
pub fn route_lowered(is_usb: bool, lowered: &str, platform: Platform) -> (strategy: OpenStrategy)
    ensures
        strategy == strategy_for(is_usb, lowered@, platform),
{
    if is_usb && platform_has_bridge_quirk(platform) && contains(lowered, "prolific") {
        OpenStrategy::Specialized
    } else {
        OpenStrategy::Standard
    }
}

/// Selects the open strategy for a resolved device. The manufacturer string
/// is compared without regard to case. Routing never fails.
pub fn route(descriptor: &PortDescriptor, platform: Platform) -> (strategy: OpenStrategy)
    ensures
        strategy == strategy_for(
            descriptor.kind is Usb,
            lowercase(manufacturer_of(descriptor.kind)),
            platform,
        ),
{
    match &descriptor.kind {
        PortKind::Usb { manufacturer } => {
            if !platform_has_bridge_quirk(platform) {
                OpenStrategy::Standard
            } else {
                proof {
                    reveal_strlit("");
                    assert(""@ =~= Seq::<char>::empty());
                }
                let lowered = match manufacturer {
                    Some(text) => to_lowercase(text.as_str()),
                    None => to_lowercase(""),
                };
                route_lowered(true, lowered.as_str(), platform)
            }
        },
        PortKind::Generic => OpenStrategy::Standard,
    }
}

} // verus!
