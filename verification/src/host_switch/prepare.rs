//! Read-only validation of one device's move to another host.

use vstd::prelude::*;
use vstd::string::*;

use crate::host_switch::error::{
    device_outcome, hidpp_outcome, seen, timed_device, timed_hidpp, DeviceError, Fault,
    HostSwitchError, Timed,
};
use crate::host_switch::slots::{
    read_host_slot, reader_for, slot_proved, HostSlotReply, ReportedHostSlot,
    ReportedHostSlotReader,
};
use crate::text::{decimal, push_decimal};

verus! {

/// How much the destination slot must prove before a device is moved.
#[derive(Debug, Clone, Copy, PartialEq, Eq, Structural)]
pub enum HostSlotRequirement {
    /// Only a slot that is reported empty is refused.
    Advisory,
    /// Only a slot that is reported paired is accepted.
    Paired,
}

/// A move that was validated and may be applied.
#[derive(Debug, Clone, Copy, PartialEq, Eq, Structural)]
pub struct PreparedHostChange {
    /// Runtime index of the device's `ChangeHost` feature.
    pub feature_index: u8,
    /// HID++ index of the device.
    pub device_index: u8,
    /// Zero-based destination host slot.
    pub host: u8,
    /// Whether the device has to be commanded at all.
    pub required: bool,
}

/// `ChangeHost` reply about the hosts of a device.
#[derive(Debug, Clone, Copy, PartialEq, Eq, Structural)]
pub struct HostInfo {
    /// Number of host channels, empty ones included.
    pub host_count: u8,
    /// Zero-based channel in use.
    pub current_host: u8,
}

/// What was asked of the device last.
#[derive(Debug, Clone, Copy, PartialEq, Eq, Structural)]
pub enum PrepareStage {
    /// Opening the device.
    Opening,
    /// Locating its `ChangeHost` feature.
    Locating,
    /// Reading which host it uses.
    Reading {
        /// Runtime index of `ChangeHost`.
        feature_index: u8,
    },
    /// Locating its `HostsInfo` feature.
    LocatingSlots {
        /// Runtime index of `ChangeHost`.
        feature_index: u8,
    },
    /// Reading the pairing status of the destination.
    ReadingSlot {
        /// Runtime index of `ChangeHost`.
        feature_index: u8,
    },
    /// Nothing more is asked.
    Finished,
}

/// Validation of one device's move, under way.
#[derive(Debug, Clone, Copy, PartialEq, Eq, Structural)]
pub struct HostPreparation {
    /// HID++ index of the device.
    pub device_index: u8,
    /// Zero-based destination host slot.
    pub host: u8,
    /// What the destination slot must prove.
    pub requirement: HostSlotRequirement,
    /// What was asked last.
    pub stage: PrepareStage,
}

/// What came of the operation asked for last.
pub enum PrepareEvent {
    /// The device was opened, or not.
    DeviceOpened(Timed<(), DeviceError>),
    /// The `ChangeHost` lookup ended with this runtime index, if any.
    FeatureLocated(Timed<Option<u8>, String>),
    /// The host read ended.
    HostInfoRead(Timed<HostInfo, String>),
    /// The `HostsInfo` lookup ended with this runtime index, if any.
    SlotFeatureLocated(Timed<Option<u8>, String>),
    /// The slot read ended.
    SlotRead(Timed<HostSlotReply, String>),
}

/// Mathematical content of a [`PrepareEvent`].
pub enum PrepareReply {
    /// See [`PrepareEvent::DeviceOpened`].
    DeviceOpened(Result<(), Fault>),
    /// See [`PrepareEvent::FeatureLocated`].
    FeatureLocated(Result<Option<u8>, Fault>),
    /// See [`PrepareEvent::HostInfoRead`].
    HostInfoRead(Result<HostInfo, Fault>),
    /// See [`PrepareEvent::SlotFeatureLocated`].
    SlotFeatureLocated(Result<Option<u8>, Fault>),
    /// See [`PrepareEvent::SlotRead`].
    SlotRead(Result<HostSlotReply, Fault>),
}

impl View for PrepareEvent {
    type V = PrepareReply;

    open spec fn view(&self) -> PrepareReply {
        match *self {
            PrepareEvent::DeviceOpened(outcome) => PrepareReply::DeviceOpened(
                device_outcome("opening host-change device"@, outcome),
            ),
            PrepareEvent::FeatureLocated(outcome) => PrepareReply::FeatureLocated(
                hidpp_outcome("locating host-change feature"@, outcome),
            ),
            PrepareEvent::HostInfoRead(outcome) => PrepareReply::HostInfoRead(
                hidpp_outcome("reading current host"@, outcome),
            ),
            PrepareEvent::SlotFeatureLocated(outcome) => PrepareReply::SlotFeatureLocated(
                hidpp_outcome("locating hosts-info feature"@, outcome),
            ),
            PrepareEvent::SlotRead(outcome) => PrepareReply::SlotRead(
                hidpp_outcome("reading host slot status"@, outcome),
            ),
        }
    }
}

/// The operation to perform next.
pub enum PrepareAction {
    /// Open the device.
    OpenDevice,
    /// Look up its `ChangeHost` feature.
    LocateChangeHost,
    /// Ask `ChangeHost` at this runtime index for the host in use.
    ReadHostInfo {
        /// Runtime index of `ChangeHost`.
        feature_index: u8,
    },
    /// Look up its `HostsInfo` feature.
    LocateHostsInfo,
    /// Ask `HostsInfo` at this runtime index for one slot.
    ReadSlot {
        /// Runtime index of `HostsInfo`.
        slots_index: u8,
        /// Zero-based slot.
        host: u8,
    },
    /// The validation ended with this result.
    Finish(Result<PreparedHostChange, HostSwitchError>),
    /// The event answers nothing that was asked.
    Ignore,
}

/// Mathematical content of a [`PrepareAction`].
pub enum PrepareStep {
    /// See [`PrepareAction::OpenDevice`].
    OpenDevice,
    /// See [`PrepareAction::LocateChangeHost`].
    LocateChangeHost,
    /// See [`PrepareAction::ReadHostInfo`].
    ReadHostInfo { feature_index: u8 },
    /// See [`PrepareAction::LocateHostsInfo`].
    LocateHostsInfo,
    /// See [`PrepareAction::ReadSlot`].
    ReadSlot { slots_index: u8, host: u8 },
    /// See [`PrepareAction::Finish`].
    Finish(Result<PreparedHostChange, Fault>),
    /// See [`PrepareAction::Ignore`].
    Ignore,
}

impl View for PrepareAction {
    type V = PrepareStep;

    open spec fn view(&self) -> PrepareStep {
        match *self {
            PrepareAction::OpenDevice => PrepareStep::OpenDevice,
            PrepareAction::LocateChangeHost => PrepareStep::LocateChangeHost,
            PrepareAction::ReadHostInfo { feature_index } => PrepareStep::ReadHostInfo {
                feature_index,
            },
            PrepareAction::LocateHostsInfo => PrepareStep::LocateHostsInfo,
            PrepareAction::ReadSlot { slots_index, host } => PrepareStep::ReadSlot {
                slots_index,
                host,
            },
            PrepareAction::Finish(result) => PrepareStep::Finish(seen(result)),
            PrepareAction::Ignore => PrepareStep::Ignore,
        }
    }
}

/// Whether a device on `current_host` has to be commanded to reach
/// `requested_host`, or the fault where it has no such host.
pub open spec fn change_required(current_host: u8, host_count: u8, requested_host: u8) -> Result<
    bool,
    Fault,
> {
    if requested_host >= host_count {
        Err(
            Fault::Hidpp(
                "host "@ + decimal(requested_host as nat) + " is outside device host count "@
                    + decimal(host_count as nat),
            ),
        )
    } else {
        Ok(current_host != requested_host)
    }
}

/// Whether a device on `current_host` has to be commanded to reach
/// `requested_host`.
pub fn host_change_required(current_host: u8, host_count: u8, requested_host: u8) -> (result:
    Result<bool, HostSwitchError>)
    ensures
        seen(result) == change_required(current_host, host_count, requested_host),
{
    if requested_host >= host_count {
        let mut text = "host ".to_owned();
        push_decimal(&mut text, requested_host as u64);
        text.append(" is outside device host count ");
        push_decimal(&mut text, host_count as u64);
        return Err(HostSwitchError::Hidpp(text));
    }
    Ok(current_host != requested_host)
}

/// The fault for a destination slot that proves too little, if it does.
pub open spec fn slot_refusal(
    requirement: HostSlotRequirement,
    slot: ReportedHostSlot,
    host: u8,
) -> Option<Fault> {
    if slot == ReportedHostSlot::Empty {
        Some(Fault::HostSlotEmpty(host))
    } else if requirement == HostSlotRequirement::Paired && slot == ReportedHostSlot::Unknown {
        Some(Fault::HostSlotUnverified(host))
    } else {
        None
    }
}

impl HostPreparation {
    /// The same validation at another stage.
    pub open spec fn at(self, stage: PrepareStage) -> HostPreparation {
        HostPreparation { stage, ..self }
    }

    /// The prepared change that this validation ends with.
    pub open spec fn change(self, feature_index: u8, required: bool) -> PreparedHostChange {
        PreparedHostChange {
            feature_index,
            device_index: self.device_index,
            host: self.host,
            required,
        }
    }

    /// End of a validation whose move is required, given what the destination
    /// slot proves.
    pub open spec fn judged(self, feature_index: u8, slot: ReportedHostSlot) -> Result<
        PreparedHostChange,
        Fault,
    > {
        match slot_refusal(self.requirement, slot, self.host) {
            Some(fault) => Err(fault),
            None => Ok(self.change(feature_index, true)),
        }
    }

    /// Where the validation goes on `reply`, and what it asks for.
    pub open spec fn after(self, reply: PrepareReply) -> (HostPreparation, PrepareStep) {
        let finished = self.at(PrepareStage::Finished);
        match (self.stage, reply) {
            (PrepareStage::Opening, PrepareReply::DeviceOpened(opened)) => match opened {
                Ok(_) => (self.at(PrepareStage::Locating), PrepareStep::LocateChangeHost),
                Err(fault) => (finished, PrepareStep::Finish(Err(fault))),
            },
            (PrepareStage::Locating, PrepareReply::FeatureLocated(located)) => match located {
                Ok(Some(feature_index)) => (
                    self.at(PrepareStage::Reading { feature_index }),
                    PrepareStep::ReadHostInfo { feature_index },
                ),
                Ok(None) => (
                    finished,
                    PrepareStep::Finish(Err(Fault::Hidpp("ChangeHost is unsupported"@))),
                ),
                Err(fault) => (finished, PrepareStep::Finish(Err(fault))),
            },
            (PrepareStage::Reading { feature_index }, PrepareReply::HostInfoRead(read)) =>
                match read {
                    Ok(info) => match change_required(
                        info.current_host,
                        info.host_count,
                        self.host,
                    ) {
                        Ok(true) => (
                            self.at(PrepareStage::LocatingSlots { feature_index }),
                            PrepareStep::LocateHostsInfo,
                        ),
                        Ok(false) => (
                            finished,
                            PrepareStep::Finish(Ok(self.change(feature_index, false))),
                        ),
                        Err(fault) => (finished, PrepareStep::Finish(Err(fault))),
                    },
                    Err(fault) => (finished, PrepareStep::Finish(Err(fault))),
                },
            (
                PrepareStage::LocatingSlots { feature_index },
                PrepareReply::SlotFeatureLocated(located),
            ) => match reader_for(located) {
                ReportedHostSlotReader::Supported(slots_index) => (
                    self.at(PrepareStage::ReadingSlot { feature_index }),
                    PrepareStep::ReadSlot { slots_index, host: self.host },
                ),
                _ => (
                    finished,
                    PrepareStep::Finish(self.judged(feature_index, ReportedHostSlot::Unknown)),
                ),
            },
            (PrepareStage::ReadingSlot { feature_index }, PrepareReply::SlotRead(read)) => (
                finished,
                PrepareStep::Finish(self.judged(feature_index, slot_proved(self.host, read))),
            ),
            _ => (self, PrepareStep::Ignore),
        }
    }

    fn finished(self, result: Result<PreparedHostChange, HostSwitchError>) -> (next: (
        HostPreparation,
        PrepareAction,
    ))
        ensures
            next.0 == self.at(PrepareStage::Finished),
            next.1@ == PrepareStep::Finish(seen(result)),
    {
        let ended = HostPreparation { stage: PrepareStage::Finished, ..self };
        (ended, PrepareAction::Finish(result))
    }

    fn judge(self, feature_index: u8, slot: ReportedHostSlot) -> (next: (
        HostPreparation,
        PrepareAction,
    ))
        ensures
            next.0 == self.at(PrepareStage::Finished),
            next.1@ == PrepareStep::Finish(self.judged(feature_index, slot)),
    {
        let host = self.host;
        match (self.requirement, slot) {
            (_, ReportedHostSlot::Empty) => self.finished(
                Err(HostSwitchError::HostSlotEmpty { host }),
            ),
            (HostSlotRequirement::Paired, ReportedHostSlot::Unknown) => self.finished(
                Err(HostSwitchError::HostSlotUnverified { host }),
            ),
            (
                HostSlotRequirement::Advisory,
                ReportedHostSlot::Unknown | ReportedHostSlot::Paired,
            )
            | (HostSlotRequirement::Paired, ReportedHostSlot::Paired) => self.finished(
                Ok(
                    PreparedHostChange {
                        feature_index,
                        device_index: self.device_index,
                        host,
                        required: true,
                    },
                ),
            ),
        }
    }

    /// Takes what came of the last operation and names the next one.
    pub fn advance(&mut self, event: PrepareEvent) -> (action: PrepareAction)
        ensures
            (*final(self), action@) == old(self).after(event@),
    {
        let (next, action) = self.next(event);
        *self = next;
        action
    }

    fn next(self, event: PrepareEvent) -> (next: (HostPreparation, PrepareAction))
        ensures
            (next.0, next.1@) == self.after(event@),
    {
        match (self.stage, event) {
            (PrepareStage::Opening, PrepareEvent::DeviceOpened(outcome)) => match timed_device(
                "opening host-change device",
                outcome,
            ) {
                Ok(_) => (
                    HostPreparation { stage: PrepareStage::Locating, ..self },
                    PrepareAction::LocateChangeHost,
                ),
                Err(error) => self.finished(Err(error)),
            },
            (PrepareStage::Locating, PrepareEvent::FeatureLocated(outcome)) => match timed_hidpp(
                "locating host-change feature",
                outcome,
            ) {
                Ok(Some(feature_index)) => (
                    HostPreparation { stage: PrepareStage::Reading { feature_index }, ..self },
                    PrepareAction::ReadHostInfo { feature_index },
                ),
                Ok(None) => self.finished(
                    Err(HostSwitchError::Hidpp("ChangeHost is unsupported".to_owned())),
                ),
                Err(error) => self.finished(Err(error)),
            },
            (PrepareStage::Reading { feature_index }, PrepareEvent::HostInfoRead(outcome)) =>
                match timed_hidpp("reading current host", outcome) {
                    Ok(info) => match host_change_required(
                        info.current_host,
                        info.host_count,
                        self.host,
                    ) {
                        Ok(true) => (
                            HostPreparation {
                                stage: PrepareStage::LocatingSlots { feature_index },
                                ..self
                            },
                            PrepareAction::LocateHostsInfo,
                        ),
                        Ok(false) => self.finished(
                            Ok(
                                PreparedHostChange {
                                    feature_index,
                                    device_index: self.device_index,
                                    host: self.host,
                                    required: false,
                                },
                            ),
                        ),
                        Err(error) => self.finished(Err(error)),
                    },
                    Err(error) => self.finished(Err(error)),
                },
            (
                PrepareStage::LocatingSlots { feature_index },
                PrepareEvent::SlotFeatureLocated(outcome),
            ) => {
                let located = timed_hidpp("locating hosts-info feature", outcome);
                match ReportedHostSlotReader::resolve(located).read_one() {
                    Ok(slots_index) => (
                        HostPreparation {
                            stage: PrepareStage::ReadingSlot { feature_index },
                            ..self
                        },
                        PrepareAction::ReadSlot { slots_index, host: self.host },
                    ),
                    Err(slot) => self.judge(feature_index, slot),
                }
            },
            (PrepareStage::ReadingSlot { feature_index }, PrepareEvent::SlotRead(outcome)) => {
                let read = timed_hidpp("reading host slot status", outcome);
                self.judge(feature_index, read_host_slot(self.host, read))
            },
            _ => (self, PrepareAction::Ignore),
        }
    }
}

/// A validation that has yet to open its device.
pub open spec fn preparation(
    device_index: u8,
    host: u8,
    requirement: HostSlotRequirement,
) -> HostPreparation {
    HostPreparation { device_index, host, requirement, stage: PrepareStage::Opening }
}

/// Begins to validate the move of a device, to be answered by opening it.
pub fn prepare_host_change_on_with_requirement(
    device_index: u8,
    host: u8,
    requirement: HostSlotRequirement,
) -> (begun: (HostPreparation, PrepareAction))
    ensures
        begun.0 == preparation(device_index, host, requirement),
        begun.1@ == PrepareStep::OpenDevice,
{
    (
        HostPreparation { device_index, host, requirement, stage: PrepareStage::Opening },
        PrepareAction::OpenDevice,
    )
}

/// Begins to validate a commanded move: an unknown slot is no obstacle.
pub fn prepare_host_change_on(device_index: u8, host: u8) -> (begun: (
    HostPreparation,
    PrepareAction,
))
    ensures
        begun.0 == preparation(device_index, host, HostSlotRequirement::Advisory),
        begun.1@ == PrepareStep::OpenDevice,
{
    prepare_host_change_on_with_requirement(device_index, host, HostSlotRequirement::Advisory)
}

/// Begins to validate a move that the keyboard may be making on its own: only a
/// slot that proves to be paired will do.
pub fn prepare_announced_host_change_on(device_index: u8, host: u8) -> (begun: (
    HostPreparation,
    PrepareAction,
))
    ensures
        begun.0 == preparation(device_index, host, HostSlotRequirement::Paired),
        begun.1@ == PrepareStep::OpenDevice,
{
    prepare_host_change_on_with_requirement(device_index, host, HostSlotRequirement::Paired)
}

/// What one device would answer to each operation of a validation.
pub struct DeviceAnswers {
    /// Opening the device.
    pub opened: Result<(), Fault>,
    /// Looking up `ChangeHost`.
    pub change_host: Result<Option<u8>, Fault>,
    /// Reading the host in use.
    pub info: Result<HostInfo, Fault>,
    /// Looking up `HostsInfo`.
    pub hosts_info: Result<Option<u8>, Fault>,
    /// Reading the destination slot.
    pub slot: Result<HostSlotReply, Fault>,
}

impl DeviceAnswers {
    /// The device's answer to one operation.
    pub open spec fn reply_to(self, step: PrepareStep) -> PrepareReply {
        match step {
            PrepareStep::OpenDevice => PrepareReply::DeviceOpened(self.opened),
            PrepareStep::LocateChangeHost => PrepareReply::FeatureLocated(self.change_host),
            PrepareStep::ReadHostInfo { .. } => PrepareReply::HostInfoRead(self.info),
            PrepareStep::LocateHostsInfo => PrepareReply::SlotFeatureLocated(self.hosts_info),
            _ => PrepareReply::SlotRead(self.slot),
        }
    }

    /// What the device proves of the slot `host`.
    pub open spec fn slot_status(self, host: u8) -> ReportedHostSlot {
        match self.hosts_info {
            Ok(Some(_)) => slot_proved(host, self.slot),
            _ => ReportedHostSlot::Unknown,
        }
    }

    /// Whether the device can be asked which host it uses.
    pub open spec fn answers_host_reads(self) -> bool {
        self.opened is Ok && (self.change_host matches Ok(located) && located is Some)
            && self.info is Ok
    }

    /// The result that a validation of this device comes to.
    pub open spec fn validated(
        self,
        device_index: u8,
        host: u8,
        requirement: HostSlotRequirement,
    ) -> Result<PreparedHostChange, Fault> {
        match (self.opened, self.change_host, self.info) {
            (Err(fault), _, _) => Err(fault),
            (_, Err(fault), _) => Err(fault),
            (_, Ok(None), _) => Err(Fault::Hidpp("ChangeHost is unsupported"@)),
            (_, _, Err(fault)) => Err(fault),
            (Ok(_), Ok(Some(feature_index)), Ok(info)) => {
                let change = PreparedHostChange {
                    feature_index,
                    device_index,
                    host,
                    required: info.current_host != host,
                };
                match change_required(info.current_host, info.host_count, host) {
                    Err(fault) => Err(fault),
                    Ok(false) => Ok(change),
                    Ok(true) => match slot_refusal(requirement, self.slot_status(host), host) {
                        Some(fault) => Err(fault),
                        None => Ok(change),
                    },
                }
            },
        }
    }
}

/// The step a validation reaches when a device answers up to `rounds` more
/// operations.
pub open spec fn driven(
    at: HostPreparation,
    step: PrepareStep,
    device: DeviceAnswers,
    rounds: nat,
) -> PrepareStep
    decreases rounds,
{
    if rounds == 0 || step is Finish {
        step
    } else {
        let next = at.after(device.reply_to(step));
        driven(next.0, next.1, device, (rounds - 1) as nat)
    }
}

/// A validation that is answered by a device ends within five operations, in
/// the result that the device's answers call for.
pub proof fn preparation_reaches_its_result(
    device_index: u8,
    host: u8,
    requirement: HostSlotRequirement,
    device: DeviceAnswers,
)
    ensures
        driven(
            preparation(device_index, host, requirement),
            PrepareStep::OpenDevice,
            device,
            5,
        ) == PrepareStep::Finish(device.validated(device_index, host, requirement)),
{
    reveal_with_fuel(driven, 6);
}

/// A device that already uses the requested host is left alone after three
/// operations, none of which asks for slot status: the slot may even look
/// unpaired.
pub proof fn staying_put_never_consults_slots(
    device_index: u8,
    host: u8,
    requirement: HostSlotRequirement,
    device: DeviceAnswers,
)
    requires
        device.answers_host_reads(),
        device.info->Ok_0.current_host == host,
        host < device.info->Ok_0.host_count,
    ensures
        driven(
            preparation(device_index, host, requirement),
            PrepareStep::OpenDevice,
            device,
            3,
        ) matches PrepareStep::Finish(Ok(change)) && !change.required,
{
    reveal_with_fuel(driven, 4);
}

/// Whatever a device answers and whatever is demanded of the slot, a move to a
/// slot that the device reports empty is never prepared.
pub proof fn an_empty_slot_is_never_prepared(
    device_index: u8,
    host: u8,
    requirement: HostSlotRequirement,
    device: DeviceAnswers,
)
    requires
        device.slot_status(host) == ReportedHostSlot::Empty,
    ensures
        device.validated(device_index, host, requirement) matches Ok(change)
            ==> !change.required,
        device.answers_host_reads() && device.info->Ok_0.current_host != host && host
            < device.info->Ok_0.host_count ==> device.validated(device_index, host, requirement)
            == Err::<PreparedHostChange, Fault>(Fault::HostSlotEmpty(host)),
{
}

/// A slot of unknown status stops a move that must be proved, and no other.
pub proof fn an_unknown_slot_stops_only_announced_moves(
    device_index: u8,
    host: u8,
    device: DeviceAnswers,
)
    requires
        device.answers_host_reads(),
        device.info->Ok_0.current_host != host,
        host < device.info->Ok_0.host_count,
        device.slot_status(host) == ReportedHostSlot::Unknown,
    ensures
        device.validated(device_index, host, HostSlotRequirement::Advisory) matches Ok(change)
            && change.required,
        device.validated(device_index, host, HostSlotRequirement::Paired) == Err::<
            PreparedHostChange,
            Fault,
        >(Fault::HostSlotUnverified(host)),
{
}

} // verus!
