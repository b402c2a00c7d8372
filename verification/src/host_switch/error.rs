//! Failures of host-switch capture and linked transitions.

use vstd::prelude::*;
use vstd::string::*;

use crate::text::{decimal, push_decimal};

verus! {

/// Failure of the HID backend that carries a channel.
#[derive(Debug)]
pub enum BackendError {
    /// The device behind the channel is gone.
    Disconnected,
    /// Any other backend failure, as the backend words it.
    Backend(String),
}

/// Failure to open the HID++ device behind a channel.
#[derive(Debug)]
pub enum DeviceError {
    /// The channel itself failed, as it words the failure.
    Channel(String),
    /// No device answers at the addressed index.
    DeviceNotFound,
    /// The device speaks only an older protocol.
    UnsupportedProtocolVersion,
}

/// Failure while arming or running a host-switch link.
#[derive(Debug)]
pub enum HostSwitchError {
    /// HID transport-level failure.
    Hid(BackendError),
    /// The configured keyboard is not currently reachable.
    KeyboardNotFound,
    /// A configured target is not currently reachable.
    TargetNotFound,
    /// A required HID++ operation failed.
    Hidpp(String),
    /// Opening the addressed HID++ device failed.
    Device(DeviceError),
    /// A required HID++ operation did not complete within its budget.
    TimedOut {
        /// Description of the operation that exceeded its budget.
        operation: &'static str,
    },
    /// The keyboard cannot report its host switch controls to software.
    UnsupportedKeyboard,
    /// The device reports the requested host slot as unpaired, so switching to
    /// it would strand the device.
    HostSlotEmpty {
        /// The zero-based host slot that has no pairing.
        host: u8,
    },
    /// Nothing proves that the requested host slot is paired, and the
    /// transition must not rely on a guess.
    HostSlotUnverified {
        /// The zero-based host slot whose pairing is unproved.
        host: u8,
    },
}

/// Mathematical content of a [`HostSwitchError`].
pub enum Fault {
    /// The device behind the channel is gone.
    Disconnected,
    /// Another backend failure.
    Backend(Seq<char>),
    /// See [`HostSwitchError::KeyboardNotFound`].
    KeyboardNotFound,
    /// See [`HostSwitchError::TargetNotFound`].
    TargetNotFound,
    /// See [`HostSwitchError::Hidpp`].
    Hidpp(Seq<char>),
    /// The device's channel failed.
    DeviceChannel(Seq<char>),
    /// No device answers at the addressed index.
    DeviceNotFound,
    /// The device speaks only an older protocol.
    UnsupportedProtocolVersion,
    /// See [`HostSwitchError::TimedOut`].
    TimedOut(Seq<char>),
    /// See [`HostSwitchError::UnsupportedKeyboard`].
    UnsupportedKeyboard,
    /// See [`HostSwitchError::HostSlotEmpty`].
    HostSlotEmpty(u8),
    /// See [`HostSwitchError::HostSlotUnverified`].
    HostSlotUnverified(u8),
}

impl View for HostSwitchError {
    type V = Fault;

    open spec fn view(&self) -> Fault {
        match self {
            HostSwitchError::Hid(BackendError::Disconnected) => Fault::Disconnected,
            HostSwitchError::Hid(BackendError::Backend(text)) => Fault::Backend(text@),
            HostSwitchError::KeyboardNotFound => Fault::KeyboardNotFound,
            HostSwitchError::TargetNotFound => Fault::TargetNotFound,
            HostSwitchError::Hidpp(text) => Fault::Hidpp(text@),
            HostSwitchError::Device(DeviceError::Channel(text)) => Fault::DeviceChannel(text@),
            HostSwitchError::Device(DeviceError::DeviceNotFound) => Fault::DeviceNotFound,
            HostSwitchError::Device(DeviceError::UnsupportedProtocolVersion) =>
                Fault::UnsupportedProtocolVersion,
            HostSwitchError::TimedOut { operation } => Fault::TimedOut(operation@),
            HostSwitchError::UnsupportedKeyboard => Fault::UnsupportedKeyboard,
            HostSwitchError::HostSlotEmpty { host } => Fault::HostSlotEmpty(*host),
            HostSwitchError::HostSlotUnverified { host } => Fault::HostSlotUnverified(*host),
        }
    }
}

/// Whether a fault means that the device may already have departed.
///
/// Validation failures are not departure signals: switching targets after one
/// would strand them.
pub open spec fn departed(fault: Fault) -> bool {
    fault is Disconnected || fault is KeyboardNotFound || fault is DeviceNotFound
}

/// What is told to the user of each fault.
pub open spec fn fault_text(fault: Fault) -> Seq<char> {
    match fault {
        Fault::Disconnected | Fault::Backend(_) => "HID transport error"@,
        Fault::KeyboardNotFound => "configured keyboard is not connected"@,
        Fault::TargetNotFound => "configured linked device is not connected"@,
        Fault::Hidpp(text) => "HID++ protocol error: "@ + text,
        Fault::DeviceChannel(_) => "HID++ device error: the HID++ channel returned an error"@,
        Fault::DeviceNotFound =>
            "HID++ device error: there is no device with the specified device index"@,
        Fault::UnsupportedProtocolVersion =>
            "HID++ device error: the device does not support HID++2.0 or newer"@,
        Fault::TimedOut(operation) => "HID++ operation timed out while "@ + operation,
        Fault::UnsupportedKeyboard => "keyboard exposes no reportable host switch controls"@,
        Fault::HostSlotEmpty(host) =>
            "host "@ + decimal(host as nat) + " is not paired on this device"@,
        Fault::HostSlotUnverified(host) =>
            "host "@ + decimal(host as nat) + " could not be verified as paired"@,
    }
}

impl HostSwitchError {
    /// Whether the error means the device may already have departed.
    pub fn is_device_unreachable(&self) -> (unreachable: bool)
        ensures
            unreachable == departed(self@),
    {
        matches!(
            self,
            HostSwitchError::Hid(BackendError::Disconnected)
                | HostSwitchError::KeyboardNotFound
                | HostSwitchError::Device(DeviceError::DeviceNotFound)
        )
    }

    /// The failure in words.
    pub fn message(&self) -> (text: String)
        ensures
            text@ == fault_text(self@),
    {
        match self {
            HostSwitchError::Hid(_) => "HID transport error".to_owned(),
            HostSwitchError::KeyboardNotFound => "configured keyboard is not connected".to_owned(),
            HostSwitchError::TargetNotFound =>
                "configured linked device is not connected".to_owned(),
            HostSwitchError::Hidpp(detail) => {
                let mut text = "HID++ protocol error: ".to_owned();
                text.append(detail.as_str());
                text
            },
            HostSwitchError::Device(DeviceError::Channel(_)) =>
                "HID++ device error: the HID++ channel returned an error".to_owned(),
            HostSwitchError::Device(DeviceError::DeviceNotFound) =>
                "HID++ device error: there is no device with the specified device index".to_owned(),
            HostSwitchError::Device(DeviceError::UnsupportedProtocolVersion) =>
                "HID++ device error: the device does not support HID++2.0 or newer".to_owned(),
            HostSwitchError::TimedOut { operation } => {
                let mut text = "HID++ operation timed out while ".to_owned();
                text.append(operation);
                text
            },
            HostSwitchError::UnsupportedKeyboard =>
                "keyboard exposes no reportable host switch controls".to_owned(),
            HostSwitchError::HostSlotEmpty { host } => {
                let mut text = "host ".to_owned();
                push_decimal(&mut text, *host as u64);
                text.append(" is not paired on this device");
                text
            },
            HostSwitchError::HostSlotUnverified { host } => {
                let mut text = "host ".to_owned();
                push_decimal(&mut text, *host as u64);
                text.append(" could not be verified as paired");
                text
            },
        }
    }
}

/// What came of an operation that was given a time budget.
pub enum Timed<T, E> {
    /// The operation ended within its budget, well or badly.
    Finished(Result<T, E>),
    /// The budget ran out first.
    Elapsed,
}

/// A result with its error seen as a [`Fault`].
pub open spec fn seen<T>(result: Result<T, HostSwitchError>) -> Result<T, Fault> {
    match result {
        Ok(value) => Ok(value),
        Err(error) => Err(error@),
    }
}

/// Fault of a failed HID++ operation: what was attempted, then why not.
pub open spec fn hidpp_fault(operation: Seq<char>, detail: Seq<char>) -> Fault {
    Fault::Hidpp(operation + ": "@ + detail)
}

/// Outcome of a bounded HID++ operation.
pub open spec fn hidpp_outcome<T>(operation: Seq<char>, outcome: Timed<T, String>) -> Result<
    T,
    Fault,
> {
    match outcome {
        Timed::Finished(Ok(value)) => Ok(value),
        Timed::Finished(Err(detail)) => Err(hidpp_fault(operation, detail@)),
        Timed::Elapsed => Err(Fault::TimedOut(operation)),
    }
}

/// Outcome of a bounded attempt to open a device.
pub open spec fn device_outcome<T>(operation: Seq<char>, outcome: Timed<T, DeviceError>) -> Result<
    T,
    Fault,
> {
    match outcome {
        Timed::Finished(Ok(value)) => Ok(value),
        Timed::Finished(Err(error)) => Err(HostSwitchError::Device(error)@),
        Timed::Elapsed => Err(Fault::TimedOut(operation)),
    }
}

/// Outcome of a bounded attempt to open a channel.
pub open spec fn channel_outcome<T>(
    operation: Seq<char>,
    outcome: Timed<Option<T>, BackendError>,
) -> Result<Option<T>, Fault> {
    match outcome {
        Timed::Finished(Ok(channel)) => Ok(channel),
        Timed::Finished(Err(error)) => Err(HostSwitchError::Hid(error)@),
        Timed::Elapsed => Err(Fault::TimedOut(operation)),
    }
}

/// The error for a HID++ operation whose failure reads `detail`.
pub fn hidpp_error(operation: &'static str, detail: String) -> (error: HostSwitchError)
    ensures
        error@ == hidpp_fault(operation@, detail@),
{
    let mut text = operation.to_owned();
    text.append(": ");
    text.append(detail.as_str());
    HostSwitchError::Hidpp(text)
}

/// Result of a bounded HID++ operation.
pub fn timed_hidpp<T>(operation: &'static str, outcome: Timed<T, String>) -> (result: Result<
    T,
    HostSwitchError,
>)
    ensures
        seen(result) == hidpp_outcome(operation@, outcome),
{
    match outcome {
        Timed::Finished(Ok(value)) => Ok(value),
        Timed::Finished(Err(detail)) => Err(hidpp_error(operation, detail)),
        Timed::Elapsed => Err(HostSwitchError::TimedOut { operation }),
    }
}

/// Result of a bounded attempt to open a device.
pub fn timed_device<T>(operation: &'static str, outcome: Timed<T, DeviceError>) -> (result: Result<
    T,
    HostSwitchError,
>)
    ensures
        seen(result) == device_outcome(operation@, outcome),
{
    match outcome {
        Timed::Finished(Ok(value)) => Ok(value),
        Timed::Finished(Err(error)) => Err(HostSwitchError::Device(error)),
        Timed::Elapsed => Err(HostSwitchError::TimedOut { operation }),
    }
}

/// Result of a bounded attempt to open a channel; `None` where the route leads
/// to no connected device.
pub fn open_channel<T>(
    operation: &'static str,
    outcome: Timed<Option<T>, BackendError>,
) -> (result: Result<Option<T>, HostSwitchError>)
    ensures
        seen(result) == channel_outcome(operation@, outcome),
{
    match outcome {
        Timed::Finished(Ok(channel)) => Ok(channel),
        Timed::Finished(Err(error)) => Err(HostSwitchError::Hid(error)),
        Timed::Elapsed => Err(HostSwitchError::TimedOut { operation }),
    }
}

} // verus!
