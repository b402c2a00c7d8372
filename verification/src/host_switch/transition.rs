//! Validation and application of linked host transitions.

use vstd::prelude::*;
use vstd::string::*;

use crate::host_switch::error::{
    channel_outcome, departed, hidpp_outcome, open_channel, seen, timed_hidpp, BackendError, Fault,
    HostSwitchError, Timed,
};
use crate::host_switch::prepare::{
    preparation, HostPreparation, HostSlotRequirement, PreparedHostChange,
};
use crate::host_switch::request::KeyboardHostTransition;
use crate::host_switch::slots::ReportedHostSlot;
use crate::route::{one_transport, route_index, DeviceRoute, RouteView};
use crate::seqs::views;

verus! {

/// Whether a command to one device can go through the other's channel.
pub fn shares_channel(left: &DeviceRoute, right: &DeviceRoute) -> (shared: bool)
    ensures
        shared == one_transport(left@, right@),
{
    left.shares_transport(right)
}

/// The fault that a transition ends with when its keyboard cannot be reached.
///
/// A commanded transition keeps the fault it met. A keyboard that may have
/// left on its own has proved nothing about its destination: only an event-time
/// report that the slot is empty is told apart.
pub open spec fn unreachable_fault(
    host_slot: Option<ReportedHostSlot>,
    host: u8,
    met: Fault,
) -> Fault {
    match host_slot {
        None => met,
        Some(ReportedHostSlot::Empty) => Fault::HostSlotEmpty(host),
        Some(_) => Fault::HostSlotUnverified(host),
    }
}

/// The result of a transition whose keyboard cannot be reached.
pub fn unreachable_transition_error(
    host_slot: Option<ReportedHostSlot>,
    host: u8,
    unreachable: HostSwitchError,
) -> (result: Result<bool, HostSwitchError>)
    ensures
        seen(result) == Err::<bool, Fault>(unreachable_fault(host_slot, host, unreachable@)),
{
    match host_slot {
        None => Err(unreachable),
        Some(ReportedHostSlot::Empty) => Err(HostSwitchError::HostSlotEmpty { host }),
        Some(ReportedHostSlot::Unknown | ReportedHostSlot::Paired) => Err(
            HostSwitchError::HostSlotUnverified { host },
        ),
    }
}

/// What the keyboard itself still needs while its followers move.
#[derive(Debug, Clone, Copy, PartialEq, Eq, Structural)]
pub enum KeyboardPart {
    /// Nothing: its firmware is already leaving.
    Departing,
    /// Its validated move, once the followers are done.
    Prepared(PreparedHostChange),
}

/// What was asked for last.
#[derive(Debug, Clone, Copy, PartialEq, Eq, Structural)]
pub enum SwitchStage {
    /// Opening the keyboard's channel.
    OpeningKeyboard,
    /// Validating the keyboard's own move.
    PreparingKeyboard,
    /// Opening a follower's channel.
    OpeningTarget {
        /// Position of the follower.
        index: usize,
        /// What the keyboard needs afterwards.
        keyboard: KeyboardPart,
    },
    /// Validating a follower's move.
    PreparingTarget {
        /// Position of the follower.
        index: usize,
        /// What the keyboard needs afterwards.
        keyboard: KeyboardPart,
    },
    /// Commanding a follower.
    CommandingTarget {
        /// Position of the follower.
        index: usize,
        /// What the keyboard needs afterwards.
        keyboard: KeyboardPart,
    },
    /// Commanding the keyboard.
    CommandingKeyboard,
    /// Nothing more is asked.
    Finished,
}

/// A linked transition, under way.
#[derive(Debug)]
pub struct LinkedSwitch {
    /// Keyboard that initiates the transition.
    keyboard: DeviceRoute,
    /// Devices that follow it, in the order they are moved.
    targets: Vec<DeviceRoute>,
    /// Zero-based destination host slot.
    host: u8,
    /// How the keyboard reaches the destination.
    transition: KeyboardHostTransition,
    /// What was asked for last.
    stage: SwitchStage,
}

/// Mathematical content of a [`LinkedSwitch`].
pub struct SwitchModel {
    /// See [`LinkedSwitch::keyboard`].
    pub keyboard: RouteView,
    /// See [`LinkedSwitch::targets`].
    pub targets: Seq<RouteView>,
    /// See [`LinkedSwitch::host`].
    pub host: u8,
    /// See [`LinkedSwitch::transition`].
    pub transition: KeyboardHostTransition,
    /// See [`LinkedSwitch::stage`].
    pub stage: SwitchStage,
}

impl View for LinkedSwitch {
    type V = SwitchModel;

    closed spec fn view(&self) -> SwitchModel {
        SwitchModel {
            keyboard: self.keyboard@,
            targets: views(self.targets@),
            host: self.host,
            transition: self.transition,
            stage: self.stage,
        }
    }
}

/// What came of the operation asked for last.
pub enum SwitchEvent {
    /// The keyboard's channel was opened, or leads nowhere, or failed to open.
    KeyboardOpened(Timed<Option<()>, BackendError>),
    /// A follower's own channel was opened, or leads nowhere, or failed to open.
    TargetOpened(Timed<Option<()>, BackendError>),
    /// A validation ended.
    Prepared(Result<PreparedHostChange, HostSwitchError>),
    /// A command to change hosts was written, or not.
    Commanded(Timed<(), String>),
}

/// Mathematical content of a [`SwitchEvent`].
pub enum SwitchReply {
    /// See [`SwitchEvent::KeyboardOpened`].
    KeyboardOpened(Result<Option<()>, Fault>),
    /// Whether there is a channel after [`SwitchEvent::TargetOpened`]. Why there
    /// is none matters to no transition.
    TargetOpened { open: bool },
    /// See [`SwitchEvent::Prepared`].
    Prepared(Result<PreparedHostChange, Fault>),
    /// See [`SwitchEvent::Commanded`].
    Commanded(Result<(), Fault>),
}

impl View for SwitchEvent {
    type V = SwitchReply;

    open spec fn view(&self) -> SwitchReply {
        match *self {
            SwitchEvent::KeyboardOpened(outcome) => SwitchReply::KeyboardOpened(
                channel_outcome("opening keyboard channel"@, outcome),
            ),
            SwitchEvent::TargetOpened(outcome) => SwitchReply::TargetOpened {
                open: (outcome matches Timed::Finished(Ok(Some(_)))),
            },
            SwitchEvent::Prepared(result) => SwitchReply::Prepared(seen(result)),
            SwitchEvent::Commanded(outcome) => SwitchReply::Commanded(
                hidpp_outcome("writing current host"@, outcome),
            ),
        }
    }
}

/// The operation to perform next.
pub enum SwitchAction {
    /// Open the keyboard's channel.
    OpenKeyboard,
    /// Validate the keyboard's move.
    PrepareKeyboard {
        /// HID++ index of the keyboard.
        device_index: u8,
        /// Zero-based destination host slot.
        host: u8,
        /// What the destination slot must prove.
        requirement: HostSlotRequirement,
    },
    /// Open a follower's own channel.
    OpenTarget {
        /// Position of the follower.
        index: usize,
    },
    /// Validate a follower's move.
    PrepareTarget {
        /// Position of the follower.
        index: usize,
        /// Whether to go through the keyboard's channel instead of its own.
        on_keyboard_channel: bool,
        /// HID++ index of the follower.
        device_index: u8,
        /// Zero-based destination host slot.
        host: u8,
        /// What the destination slot must prove.
        requirement: HostSlotRequirement,
    },
    /// Command a follower to change hosts.
    CommandTarget {
        /// Position of the follower.
        index: usize,
        /// The move to apply.
        change: PreparedHostChange,
    },
    /// Command the keyboard to change hosts.
    CommandKeyboard {
        /// The move to apply.
        change: PreparedHostChange,
    },
    /// The transition ended: whether the keyboard left, or why not.
    Finish(Result<bool, HostSwitchError>),
    /// The event answers nothing that was asked.
    Ignore,
}

/// Mathematical content of a [`SwitchAction`].
pub enum SwitchStep {
    /// See [`SwitchAction::OpenKeyboard`].
    OpenKeyboard,
    /// See [`SwitchAction::PrepareKeyboard`].
    PrepareKeyboard { device_index: u8, host: u8, requirement: HostSlotRequirement },
    /// See [`SwitchAction::OpenTarget`].
    OpenTarget { index: usize },
    /// See [`SwitchAction::PrepareTarget`].
    PrepareTarget {
        index: usize,
        on_keyboard_channel: bool,
        device_index: u8,
        host: u8,
        requirement: HostSlotRequirement,
    },
    /// See [`SwitchAction::CommandTarget`].
    CommandTarget { index: usize, change: PreparedHostChange },
    /// See [`SwitchAction::CommandKeyboard`].
    CommandKeyboard { change: PreparedHostChange },
    /// See [`SwitchAction::Finish`].
    Finish(Result<bool, Fault>),
    /// See [`SwitchAction::Ignore`].
    Ignore,
}

impl View for SwitchAction {
    type V = SwitchStep;

    open spec fn view(&self) -> SwitchStep {
        match *self {
            SwitchAction::OpenKeyboard => SwitchStep::OpenKeyboard,
            SwitchAction::PrepareKeyboard { device_index, host, requirement } =>
                SwitchStep::PrepareKeyboard { device_index, host, requirement },
            SwitchAction::OpenTarget { index } => SwitchStep::OpenTarget { index },
            SwitchAction::PrepareTarget {
                index,
                on_keyboard_channel,
                device_index,
                host,
                requirement,
            } => SwitchStep::PrepareTarget {
                index,
                on_keyboard_channel,
                device_index,
                host,
                requirement,
            },
            SwitchAction::CommandTarget { index, change } => SwitchStep::CommandTarget {
                index,
                change,
            },
            SwitchAction::CommandKeyboard { change } => SwitchStep::CommandKeyboard { change },
            SwitchAction::Finish(result) => SwitchStep::Finish(seen(result)),
            SwitchAction::Ignore => SwitchStep::Ignore,
        }
    }
}

/// The event-time slot report of a transition that the keyboard may be making
/// on its own.
pub open spec fn event_slot(transition: KeyboardHostTransition) -> Option<ReportedHostSlot> {
    match transition {
        KeyboardHostTransition::AnalyticsEvent { host_slot } => Some(host_slot),
        _ => None,
    }
}

/// What the keyboard's destination slot must prove in a transition.
pub open spec fn keyboard_requirement(transition: KeyboardHostTransition) -> HostSlotRequirement {
    if transition is AnalyticsEvent {
        HostSlotRequirement::Paired
    } else {
        HostSlotRequirement::Advisory
    }
}

impl SwitchModel {
    /// The same transition at another stage.
    pub open spec fn at(self, stage: SwitchStage) -> SwitchModel {
        SwitchModel { stage, ..self }
    }

    /// The end of the transition.
    pub open spec fn ended(self, result: Result<bool, Fault>) -> (SwitchModel, SwitchStep) {
        (self.at(SwitchStage::Finished), SwitchStep::Finish(result))
    }

    /// The end of a transition that the keyboard refuses, or fails to answer.
    pub open spec fn refused(self, fault: Fault) -> (SwitchModel, SwitchStep) {
        if departed(fault) {
            self.ended(Err(unreachable_fault(event_slot(self.transition), self.host, fault)))
        } else {
            self.ended(Err(fault))
        }
    }

    /// The request to validate the move of the follower at `index`.
    pub open spec fn target_validation(self, index: usize, on_keyboard_channel: bool) -> SwitchStep {
        SwitchStep::PrepareTarget {
            index,
            on_keyboard_channel,
            device_index: route_index(self.targets[index as int]),
            host: self.host,
            requirement: HostSlotRequirement::Advisory,
        }
    }

    /// The validation that the transition waits for, if it waits for one.
    pub open spec fn validation(self) -> Option<HostPreparation> {
        match self.stage {
            SwitchStage::PreparingKeyboard => Some(
                preparation(
                    route_index(self.keyboard),
                    self.host,
                    keyboard_requirement(self.transition),
                ),
            ),
            SwitchStage::PreparingTarget { index, .. } => Some(
                preparation(
                    route_index(self.targets[index as int]),
                    self.host,
                    HostSlotRequirement::Advisory,
                ),
            ),
            _ => None,
        }
    }

    /// Turns to the follower at `index`, or to the keyboard after the last one.
    pub open spec fn turn_to(self, index: int, keyboard: KeyboardPart) -> (
        SwitchModel,
        SwitchStep,
    ) {
        let position = index as usize;
        if index < self.targets.len() {
            if keyboard is Prepared && one_transport(self.targets[index], self.keyboard) {
                (
                    self.at(SwitchStage::PreparingTarget { index: position, keyboard }),
                    self.target_validation(position, true),
                )
            } else {
                (
                    self.at(SwitchStage::OpeningTarget { index: position, keyboard }),
                    SwitchStep::OpenTarget { index: position },
                )
            }
        } else {
            match keyboard {
                KeyboardPart::Departing => self.ended(Ok(true)),
                KeyboardPart::Prepared(change) => if change.required {
                    (
                        self.at(SwitchStage::CommandingKeyboard),
                        SwitchStep::CommandKeyboard { change },
                    )
                } else {
                    self.ended(Ok(false))
                },
            }
        }
    }

    /// Where the transition starts, and what it asks for.
    pub open spec fn begun(self) -> (SwitchModel, SwitchStep) {
        match self.transition {
            KeyboardHostTransition::AlreadyDeparting { host_slot } => if host_slot
                == ReportedHostSlot::Empty {
                self.ended(Err(Fault::HostSlotEmpty(self.host)))
            } else {
                self.turn_to(0, KeyboardPart::Departing)
            },
            _ => (self.at(SwitchStage::OpeningKeyboard), SwitchStep::OpenKeyboard),
        }
    }

    /// Where the transition goes on `reply`, and what it asks for.
    pub open spec fn after(self, reply: SwitchReply) -> (SwitchModel, SwitchStep) {
        match (self.stage, reply) {
            (SwitchStage::OpeningKeyboard, SwitchReply::KeyboardOpened(opened)) => match opened {
                Ok(Some(_)) => (
                    self.at(SwitchStage::PreparingKeyboard),
                    SwitchStep::PrepareKeyboard {
                        device_index: route_index(self.keyboard),
                        host: self.host,
                        requirement: keyboard_requirement(self.transition),
                    },
                ),
                Ok(None) => self.refused(Fault::KeyboardNotFound),
                Err(fault) => self.refused(fault),
            },
            (SwitchStage::PreparingKeyboard, SwitchReply::Prepared(prepared)) => match prepared {
                Ok(change) => self.turn_to(0, KeyboardPart::Prepared(change)),
                Err(fault) => self.refused(fault),
            },
            (SwitchStage::OpeningTarget { index, keyboard }, SwitchReply::TargetOpened { open }) =>
                if open {
                    (
                        self.at(SwitchStage::PreparingTarget { index, keyboard }),
                        self.target_validation(index, false),
                    )
                } else {
                    self.turn_to(index + 1, keyboard)
                },
            (SwitchStage::PreparingTarget { index, keyboard }, SwitchReply::Prepared(prepared)) =>
                match prepared {
                    Ok(change) => if change.required {
                        (
                            self.at(SwitchStage::CommandingTarget { index, keyboard }),
                            SwitchStep::CommandTarget { index, change },
                        )
                    } else {
                        self.turn_to(index + 1, keyboard)
                    },
                    Err(_) => self.turn_to(index + 1, keyboard),
                },
            (SwitchStage::CommandingTarget { index, keyboard }, SwitchReply::Commanded(_)) =>
                self.turn_to(index + 1, keyboard),
            (SwitchStage::CommandingKeyboard, SwitchReply::Commanded(written)) => match written {
                Ok(_) => self.ended(Ok(true)),
                Err(fault) => self.ended(Err(fault)),
            },
            _ => (self, SwitchStep::Ignore),
        }
    }

    /// The follower that the stage is about lies in the list.
    pub open spec fn well_formed(self) -> bool {
        &&& self.targets.len() <= usize::MAX
        &&& match self.stage {
            SwitchStage::OpeningTarget { index, .. } => index < self.targets.len(),
            SwitchStage::PreparingTarget { index, .. } => index < self.targets.len(),
            SwitchStage::CommandingTarget { index, .. } => index < self.targets.len(),
            _ => true,
        }
    }
}

impl LinkedSwitch {
    fn validate_target(&self, index: usize, on_keyboard_channel: bool) -> (action: SwitchAction)
        requires
            index < self@.targets.len(),
        ensures
            action@ == self@.target_validation(index, on_keyboard_channel),
    {
        assert(self@.targets[index as int] == self.targets@[index as int]@);
        SwitchAction::PrepareTarget {
            index,
            on_keyboard_channel,
            device_index: self.targets[index].device_index(),
            host: self.host,
            requirement: HostSlotRequirement::Advisory,
        }
    }

    fn turn_to(&mut self, index: usize, keyboard: KeyboardPart) -> (action: SwitchAction)
        ensures
            (final(self)@, action@) == old(self)@.turn_to(index as int, keyboard),
            old(self)@.well_formed() ==> final(self)@.well_formed(),
    {
        if index < self.targets.len() {
            assert(self@.targets[index as int] == self.targets@[index as int]@);
            let shared = matches!(keyboard, KeyboardPart::Prepared(_)) && shares_channel(
                &self.targets[index],
                &self.keyboard,
            );
            if shared {
                self.stage = SwitchStage::PreparingTarget { index, keyboard };
                self.validate_target(index, true)
            } else {
                self.stage = SwitchStage::OpeningTarget { index, keyboard };
                SwitchAction::OpenTarget { index }
            }
        } else {
            match keyboard {
                KeyboardPart::Departing => {
                    self.stage = SwitchStage::Finished;
                    SwitchAction::Finish(Ok(true))
                },
                KeyboardPart::Prepared(change) => {
                    if change.required {
                        self.stage = SwitchStage::CommandingKeyboard;
                        SwitchAction::CommandKeyboard { change }
                    } else {
                        self.stage = SwitchStage::Finished;
                        SwitchAction::Finish(Ok(false))
                    }
                },
            }
        }
    }

    fn refuse(&mut self, error: HostSwitchError) -> (action: SwitchAction)
        ensures
            (final(self)@, action@) == old(self)@.refused(error@),
            old(self)@.well_formed() ==> final(self)@.well_formed(),
    {
        self.stage = SwitchStage::Finished;
        if error.is_device_unreachable() {
            let host_slot = match self.transition {
                KeyboardHostTransition::AnalyticsEvent { host_slot } => Some(host_slot),
                _ => None,
            };
            SwitchAction::Finish(unreachable_transition_error(host_slot, self.host, error))
        } else {
            SwitchAction::Finish(Err(error))
        }
    }

    /// Takes what came of the last operation and names the next one.
    pub fn advance(&mut self, event: SwitchEvent) -> (action: SwitchAction)
        requires
            old(self)@.well_formed(),
        ensures
            (final(self)@, action@) == old(self)@.after(event@),
            final(self)@.well_formed(),
    {
        match (self.stage, event) {
            (SwitchStage::OpeningKeyboard, SwitchEvent::KeyboardOpened(outcome)) =>
                match open_channel("opening keyboard channel", outcome) {
                    Ok(Some(_)) => {
                        let requirement = match self.transition {
                            KeyboardHostTransition::AnalyticsEvent { .. } =>
                                HostSlotRequirement::Paired,
                            _ => HostSlotRequirement::Advisory,
                        };
                        self.stage = SwitchStage::PreparingKeyboard;
                        SwitchAction::PrepareKeyboard {
                            device_index: self.keyboard.device_index(),
                            host: self.host,
                            requirement,
                        }
                    },
                    Ok(None) => self.refuse(HostSwitchError::KeyboardNotFound),
                    Err(error) => self.refuse(error),
                },
            (SwitchStage::PreparingKeyboard, SwitchEvent::Prepared(result)) => match result {
                Ok(change) => self.turn_to(0, KeyboardPart::Prepared(change)),
                Err(error) => self.refuse(error),
            },
            (
                SwitchStage::OpeningTarget { index, keyboard },
                SwitchEvent::TargetOpened(outcome),
            ) => match outcome {
                Timed::Finished(Ok(Some(_))) => {
                    self.stage = SwitchStage::PreparingTarget { index, keyboard };
                    self.validate_target(index, false)
                },
                _ => self.turn_to(index + 1, keyboard),
            },
            (SwitchStage::PreparingTarget { index, keyboard }, SwitchEvent::Prepared(result)) =>
                match result {
                    Ok(change) => {
                        if change.required {
                            self.stage = SwitchStage::CommandingTarget { index, keyboard };
                            SwitchAction::CommandTarget { index, change }
                        } else {
                            self.turn_to(index + 1, keyboard)
                        }
                    },
                    Err(_) => self.turn_to(index + 1, keyboard),
                },
            (SwitchStage::CommandingTarget { index, keyboard }, SwitchEvent::Commanded(_)) =>
                self.turn_to(index + 1, keyboard),
            (SwitchStage::CommandingKeyboard, SwitchEvent::Commanded(outcome)) => {
                self.stage = SwitchStage::Finished;
                match timed_hidpp("writing current host", outcome) {
                    Ok(_) => SwitchAction::Finish(Ok(true)),
                    Err(error) => SwitchAction::Finish(Err(error)),
                }
            },
            _ => SwitchAction::Ignore,
        }
    }
}

/// A transition before anything was asked.
pub open spec fn linked(
    keyboard: RouteView,
    targets: Seq<RouteView>,
    host: u8,
    transition: KeyboardHostTransition,
) -> SwitchModel {
    SwitchModel { keyboard, targets, host, transition, stage: SwitchStage::Finished }
}

/// Begins to move the reachable targets to `host`, and the keyboard last.
///
/// The transition ends with whether the keyboard actually changed hosts, or its
/// firmware announced that it had already begun departing. An announcement
/// carries the destination that the keyboard itself selected, so followers use
/// their own channels at once instead of waiting for an impossible reopen.
pub fn switch_linked_hosts(
    keyboard: DeviceRoute,
    targets: Vec<DeviceRoute>,
    host: u8,
    keyboard_transition: KeyboardHostTransition,
) -> (begun: (LinkedSwitch, SwitchAction))
    ensures
        (begun.0@, begun.1@) == linked(
            keyboard@,
            views(targets@),
            host,
            keyboard_transition,
        ).begun(),
        begun.0@.well_formed(),
{
    let mut switch = LinkedSwitch {
        keyboard,
        targets,
        host,
        transition: keyboard_transition,
        stage: SwitchStage::Finished,
    };
    assert(targets@.len() == targets.len());
    let action = match keyboard_transition {
        KeyboardHostTransition::AlreadyDeparting { host_slot } => {
            if host_slot == ReportedHostSlot::Empty {
                SwitchAction::Finish(Err(HostSwitchError::HostSlotEmpty { host }))
            } else {
                switch.turn_to(0, KeyboardPart::Departing)
            }
        },
        _ => {
            switch.stage = SwitchStage::OpeningKeyboard;
            SwitchAction::OpenKeyboard
        },
    };
    (switch, action)
}

} // verus!
