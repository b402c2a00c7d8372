//! Failures of diagnostic reads.

use vstd::prelude::*;

verus! {

/// The HID++ operation that a failure interrupted.
#[derive(Debug, Clone, Copy, PartialEq, Eq, Structural)]
pub enum HidppOperation {
    /// Reading out tables for diagnostics.
    DumpFeatures,
}

/// Why a device could not be read.
#[derive(Debug, PartialEq, Eq)]
pub enum WriteError {
    /// The device does not answer on its channel.
    DeviceUnreachable {
        /// HID++ index of the device.
        index: u8,
    },
    /// The device lacks the feature.
    FeatureUnsupported {
        /// HID++ id of the feature.
        feature_hex: u16,
    },
    /// The device answered with something that has no meaning here.
    UnsupportedResponse {
        /// What was being done.
        operation: HidppOperation,
        /// HID++ id of the feature that answered.
        feature_hex: u16,
    },
    /// Any other HID++ failure, as text.
    Hidpp(String),
}

} // verus!
