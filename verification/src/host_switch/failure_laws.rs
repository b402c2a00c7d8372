//! What failed operations are reported as.

use vstd::prelude::*;
use vstd::string::*;

use crate::host_switch::arming::{ArmEvent, ArmReply};
use crate::host_switch::error::{
    channel_outcome, departed, device_outcome, fault_text, hidpp_outcome, BackendError,
    DeviceError, Fault, Timed,
};
use crate::host_switch::prepare::{PrepareEvent, PrepareReply};
use crate::host_switch::session::{SessionEvent, SessionReply};
use crate::host_switch::transition::{SwitchEvent, SwitchReply};
use crate::text::decimal;

verus! {

/// The fault of a HID++ operation that failed with `detail`, or was not answered
/// in time.
pub open spec fn failure(operation: Seq<char>, detail: Option<Seq<char>>) -> Fault {
    match detail {
        Some(detail) => Fault::Hidpp(operation + ": "@ + detail),
        None => Fault::TimedOut(operation),
    }
}

/// An operation that ends in time hands on its value. One that fails is reported
/// with its name and its cause, and one that is not answered in time with its
/// name.
pub proof fn an_operation_is_reported_as_it_ended<T>(
    operation: Seq<char>,
    value: T,
    detail: String,
)
    ensures
        hidpp_outcome(operation, Timed::<T, String>::Finished(Ok(value))) == Ok::<T, Fault>(value),
        hidpp_outcome(operation, Timed::<T, String>::Finished(Err(detail))) == Err::<T, Fault>(
            failure(operation, Some(detail@)),
        ),
        hidpp_outcome(operation, Timed::<T, String>::Elapsed) == Err::<T, Fault>(
            failure(operation, None),
        ),
{
}

/// A device that opens is handed on; each cause why it does not is told apart.
pub proof fn a_device_is_reported_as_it_opened<T>(operation: Seq<char>, value: T, detail: String)
    ensures
        device_outcome(operation, Timed::Finished(Ok(value))) == Ok::<T, Fault>(value),
        device_outcome(operation, Timed::<T, DeviceError>::Finished(Err(DeviceError::DeviceNotFound)))
            == Err::<T, Fault>(Fault::DeviceNotFound),
        device_outcome(
            operation,
            Timed::<T, DeviceError>::Finished(Err(DeviceError::UnsupportedProtocolVersion)),
        ) == Err::<T, Fault>(Fault::UnsupportedProtocolVersion),
        device_outcome(operation, Timed::<T, DeviceError>::Finished(Err(DeviceError::Channel(detail))))
            == Err::<T, Fault>(Fault::DeviceChannel(detail@)),
        device_outcome(operation, Timed::<T, DeviceError>::Elapsed) == Err::<T, Fault>(
            Fault::TimedOut(operation),
        ),
{
}

/// A channel is handed on, or that there is none; each cause why it does not open
/// is told apart.
pub proof fn a_channel_is_reported_as_it_opened<T>(
    operation: Seq<char>,
    channel: Option<T>,
    detail: String,
)
    ensures
        channel_outcome(operation, Timed::Finished(Ok(channel))) == Ok::<Option<T>, Fault>(channel),
        channel_outcome(
            operation,
            Timed::<Option<T>, BackendError>::Finished(Err(BackendError::Disconnected)),
        ) == Err::<Option<T>, Fault>(Fault::Disconnected),
        channel_outcome(
            operation,
            Timed::<Option<T>, BackendError>::Finished(Err(BackendError::Backend(detail))),
        ) == Err::<Option<T>, Fault>(Fault::Backend(detail@)),
        channel_outcome(operation, Timed::<Option<T>, BackendError>::Elapsed) == Err::<
            Option<T>,
            Fault,
        >(Fault::TimedOut(operation)),
{
}

/// A device may have departed exactly where its channel is gone, its route leads
/// nowhere, or nothing answers at its index. No refusal is taken for a departure.
pub proof fn only_a_missing_device_may_have_departed(fault: Fault)
    ensures
        departed(fault) <==> fault == Fault::Disconnected || fault == Fault::KeyboardNotFound
            || fault == Fault::DeviceNotFound,
{
}

/// Each operation of an arming is named in its failure.
pub proof fn arming_names_what_failed(detail: String)
    ensures
        ArmEvent::Counted(Timed::Elapsed)@ == ArmReply::Counted(
            Err(failure("reading host control count"@, None)),
        ),
        ArmEvent::Counted(Timed::Finished(Err(detail)))@ == ArmReply::Counted(
            Err(failure("reading host control count"@, Some(detail@))),
        ),
        ArmEvent::InfoRead(Timed::Elapsed)@ == ArmReply::InfoRead(
            Err(failure("reading host control information"@, None)),
        ),
        ArmEvent::InfoRead(Timed::Finished(Err(detail)))@ == ArmReply::InfoRead(
            Err(failure("reading host control information"@, Some(detail@))),
        ),
        ArmEvent::ReportingRead(Timed::Elapsed)@ == ArmReply::ReportingRead(
            Err(failure("reading host control reporting"@, None)),
        ),
        ArmEvent::ReportingRead(Timed::Finished(Err(detail)))@ == ArmReply::ReportingRead(
            Err(failure("reading host control reporting"@, Some(detail@))),
        ),
        ArmEvent::Diverted(Timed::Elapsed)@ == ArmReply::Written(
            Err(failure("diverting host control"@, None)),
        ),
        ArmEvent::Diverted(Timed::Finished(Err(detail)))@ == ArmReply::Written(
            Err(failure("diverting host control"@, Some(detail@))),
        ),
        ArmEvent::AnalyticsEnabled(Timed::Elapsed)@ == ArmReply::Written(
            Err(failure("enabling host control analytics"@, None)),
        ),
        ArmEvent::AnalyticsEnabled(Timed::Finished(Err(detail)))@ == ArmReply::Written(
            Err(failure("enabling host control analytics"@, Some(detail@))),
        ),
{
}

/// Each operation of a validation is named in its failure.
pub proof fn a_validation_names_what_failed(detail: String)
    ensures
        PrepareEvent::DeviceOpened(Timed::Elapsed)@ == PrepareReply::DeviceOpened(
            Err(Fault::TimedOut("opening host-change device"@)),
        ),
        PrepareEvent::FeatureLocated(Timed::Elapsed)@ == PrepareReply::FeatureLocated(
            Err(failure("locating host-change feature"@, None)),
        ),
        PrepareEvent::FeatureLocated(Timed::Finished(Err(detail)))@ == PrepareReply::FeatureLocated(
            Err(failure("locating host-change feature"@, Some(detail@))),
        ),
        PrepareEvent::HostInfoRead(Timed::Elapsed)@ == PrepareReply::HostInfoRead(
            Err(failure("reading current host"@, None)),
        ),
        PrepareEvent::HostInfoRead(Timed::Finished(Err(detail)))@ == PrepareReply::HostInfoRead(
            Err(failure("reading current host"@, Some(detail@))),
        ),
        PrepareEvent::SlotFeatureLocated(Timed::Elapsed)@ == PrepareReply::SlotFeatureLocated(
            Err(failure("locating hosts-info feature"@, None)),
        ),
        PrepareEvent::SlotRead(Timed::Elapsed)@ == PrepareReply::SlotRead(
            Err(failure("reading host slot status"@, None)),
        ),
{
}

/// Each operation of a session is named in its failure.
pub proof fn a_session_names_what_failed(detail: String)
    ensures
        SessionEvent::ChannelOpened(Timed::Elapsed)@ == SessionReply::ChannelOpened(
            Err(Fault::TimedOut("opening keyboard channel"@)),
        ),
        SessionEvent::DeviceOpened(Timed::Elapsed)@ == SessionReply::DeviceOpened(
            Err(Fault::TimedOut("opening keyboard device"@)),
        ),
        SessionEvent::ControlsLocated(Timed::Elapsed)@ == SessionReply::ControlsLocated(
            Err(failure("locating host controls"@, None)),
        ),
        SessionEvent::ControlsLocated(Timed::Finished(Err(detail)))@
            == SessionReply::ControlsLocated(
            Err(failure("locating host controls"@, Some(detail@))),
        ),
        SessionEvent::ChangeHostLocated(Timed::Elapsed)@ == SessionReply::ChangeHostLocated(
            Err(failure("locating change-host announcements"@, None)),
        ),
        SessionEvent::ChangeHostLocated(Timed::Finished(Err(detail)))@
            == SessionReply::ChangeHostLocated(
            Err(failure("locating change-host announcements"@, Some(detail@))),
        ),
        SessionEvent::HostsInfoLocated(Timed::Elapsed)@ == SessionReply::HostsInfoLocated(
            Err(failure("locating hosts-info feature"@, None)),
        ),
        SessionEvent::SlotRead(Timed::Elapsed)@ == SessionReply::SlotRead(
            Err(failure("reading host slot status"@, None)),
        ),
{
}

/// Each operation of a transition whose failure comes out is named in it.
pub proof fn a_transition_names_what_failed(detail: String)
    ensures
        SwitchEvent::KeyboardOpened(Timed::Elapsed)@ == SwitchReply::KeyboardOpened(
            Err(Fault::TimedOut("opening keyboard channel"@)),
        ),
        SwitchEvent::Commanded(Timed::Elapsed)@ == SwitchReply::Commanded(
            Err(failure("writing current host"@, None)),
        ),
        SwitchEvent::Commanded(Timed::Finished(Err(detail)))@ == SwitchReply::Commanded(
            Err(failure("writing current host"@, Some(detail@))),
        ),
{
}

/// A follower can be reached through its own channel exactly where one was opened
/// in time. That its route leads nowhere, that the channel fails, and that it takes
/// too long come to the same.
pub proof fn a_follower_is_open_only_with_a_channel(
    outcome: Timed<Option<()>, BackendError>,
)
    ensures
        SwitchEvent::TargetOpened(outcome)@ == (SwitchReply::TargetOpened { open: true }) <==> (
        outcome matches Timed::Finished(Ok(Some(_)))),
        SwitchEvent::TargetOpened(outcome)@ == (SwitchReply::TargetOpened { open: false }) <==> (
        outcome matches Timed::Finished(Ok(None))) || (outcome matches Timed::Finished(Err(_)))
            || outcome is Elapsed,
{
}

/// What each failure reads as. Failures that carry a cause, an operation or a
/// host say which.
pub proof fn failures_are_told_in_words(fault: Fault)
    ensures
        fault matches Fault::TimedOut(operation) ==> fault_text(fault)
            == "HID++ operation timed out while "@ + operation,
        fault matches Fault::Hidpp(detail) ==> fault_text(fault) == "HID++ protocol error: "@ + detail,
        fault matches Fault::HostSlotEmpty(host) ==> fault_text(fault) == "host "@ + decimal(
            host as nat,
        ) + " is not paired on this device"@,
        fault matches Fault::HostSlotUnverified(host) ==> fault_text(fault) == "host "@ + decimal(
            host as nat,
        ) + " could not be verified as paired"@,
        fault is KeyboardNotFound ==> fault_text(fault) == "configured keyboard is not connected"@,
        fault is TargetNotFound ==> fault_text(fault) == "configured linked device is not connected"@,
        fault is UnsupportedKeyboard ==> fault_text(fault)
            == "keyboard exposes no reportable host switch controls"@,
        fault is Disconnected || fault is Backend ==> fault_text(fault) == "HID transport error"@,
        fault is DeviceNotFound ==> fault_text(fault)
            == "HID++ device error: there is no device with the specified device index"@,
        fault is UnsupportedProtocolVersion ==> fault_text(fault)
            == "HID++ device error: the device does not support HID++2.0 or newer"@,
        fault is DeviceChannel ==> fault_text(fault)
            == "HID++ device error: the HID++ channel returned an error"@,
{
}

} // verus!
