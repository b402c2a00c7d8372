//! Capture sessions: what is asked of a keyboard until one of its host keys is
//! pressed.

use vstd::prelude::*;
use vstd::string::*;

use crate::host_switch::controls::{
    captured_press, host_control_request, ArmedControl, CapturedControl, ControlCleanup,
    ReprogControlsEvent,
};
use crate::host_switch::error::{
    channel_outcome, device_outcome, hidpp_outcome, open_channel, seen, timed_device, timed_hidpp,
    BackendError, DeviceError, Fault, HostSwitchError, Timed,
};
use crate::host_switch::message::{
    announced_host, change_host_announcement, decode_report, decoded,
};
use crate::host_switch::request::{
    HostSwitchCaptureMode, HostSwitchRequest, HostSwitchStopReason, KeyboardHostTransition,
};
use crate::host_switch::slots::{
    read_host_slot, reader_for, slot_proved, HostSlotReply, ReportedHostSlot,
    ReportedHostSlotReader,
};

verus! {

/// Number of host keys on an Easy-Switch keyboard.
pub const EASY_SWITCH_HOST_COUNT: u8 = 3;

/// Where a keyboard announces departures, and how their slots can be checked.
#[derive(Debug, Clone, Copy, PartialEq, Eq, Structural)]
pub struct ChangeHostCapture {
    /// Runtime index of `ChangeHost`.
    pub feature_index: u8,
    /// Access to the pairing status of host slots.
    pub slot_reader: ReportedHostSlotReader,
}

/// Something a keyboard reported that ends a capture.
#[derive(Debug, Clone, Copy, PartialEq, Eq, Structural)]
pub enum Observation {
    /// A host key was pressed.
    Press(CapturedControl),
    /// The keyboard announced that it leaves for this host.
    Departure(u8),
}

/// A report that arrived on a keyboard's channel.
#[derive(Debug)]
pub struct ChannelReport {
    /// Whether the report answers a request, and so is no event.
    pub matched: bool,
    /// The raw report.
    pub bytes: Vec<u8>,
    /// The reprogrammable-controls event in it, where it is one of the
    /// keyboard's.
    pub event: Option<ReprogControlsEvent>,
}

/// What a report means to a capture.
pub open spec fn meaning(
    matched: bool,
    bytes: Seq<u8>,
    event: Option<ReprogControlsEvent>,
    armed: Seq<ArmedControl>,
    keyboard_index: u8,
    capture: Option<ChangeHostCapture>,
) -> Option<Observation> {
    if matched || decoded(bytes) is None {
        None
    } else {
        match (event, capture) {
            (Some(event), _) => match captured_press(armed, event) {
                Some(captured) => Some(Observation::Press(captured)),
                None => None,
            },
            (None, Some(capture)) => match announced_host(
                decoded(bytes)->Some_0,
                keyboard_index,
                capture.feature_index,
                EASY_SWITCH_HOST_COUNT,
            ) {
                Some(host) => Some(Observation::Departure(host)),
                None => None,
            },
            (None, None) => None,
        }
    }
}

/// Tells what a report means to a capture.
pub fn observe_report(
    matched: bool,
    bytes: &[u8],
    event: Option<ReprogControlsEvent>,
    armed: &[ArmedControl],
    keyboard_index: u8,
    capture: Option<ChangeHostCapture>,
) -> (observation: Option<Observation>)
    ensures
        observation == meaning(matched, bytes@, event, armed@, keyboard_index, capture),
{
    if matched {
        return None;
    }
    let message = match decode_report(bytes) {
        Some(message) => message,
        None => return None,
    };
    if let Some(event) = event {
        return match host_control_request(armed, event) {
            Some(captured) => Some(Observation::Press(captured)),
            None => None,
        };
    }
    match capture {
        Some(capture) => match change_host_announcement(
            &message,
            keyboard_index,
            capture.feature_index,
            EASY_SWITCH_HOST_COUNT,
        ) {
            Some(host) => Some(Observation::Departure(host)),
            None => None,
        },
        None => None,
    }
}

/// The request for a press, once its destination slot was sampled.
pub open spec fn sampled(request: HostSwitchRequest, slot: ReportedHostSlot) -> HostSwitchRequest {
    HostSwitchRequest {
        keyboard_transition: match request.keyboard_transition {
            KeyboardHostTransition::AnalyticsEvent { .. } =>
                KeyboardHostTransition::AnalyticsEvent { host_slot: slot },
            transition => transition,
        },
        ..request
    }
}

/// The request that a captured press ends in, given the pairing status of its
/// destination at the time of the press.
pub fn finish_captured_control(captured: CapturedControl, slot: ReportedHostSlot) -> (request:
    HostSwitchRequest)
    ensures
        request == sampled(captured.request, slot),
{
    match captured.request.keyboard_transition {
        KeyboardHostTransition::AnalyticsEvent { .. } => HostSwitchRequest {
            keyboard_transition: KeyboardHostTransition::AnalyticsEvent { host_slot: slot },
            ..captured.request
        },
        _ => captured.request,
    }
}

/// The request that an announced departure amounts to.
pub open spec fn departure(host: u8, slot: ReportedHostSlot) -> HostSwitchRequest {
    HostSwitchRequest {
        host,
        keyboard_transition: KeyboardHostTransition::AlreadyDeparting { host_slot: slot },
    }
}

/// The request that an announced departure amounts to, given the pairing status
/// of its destination at the time of the announcement.
pub fn departure_request(host: u8, slot: ReportedHostSlot) -> (request: HostSwitchRequest)
    ensures
        request == departure(host, slot),
{
    HostSwitchRequest {
        host,
        keyboard_transition: KeyboardHostTransition::AlreadyDeparting { host_slot: slot },
    }
}

/// What was asked for last.
#[derive(Debug, Clone, Copy, PartialEq, Eq, Structural)]
pub enum SessionStage {
    /// Opening the keyboard's channel.
    OpeningChannel,
    /// Opening the keyboard.
    OpeningDevice,
    /// Locating its reprogrammable controls.
    LocatingControls,
    /// Locating its `ChangeHost` feature.
    LocatingChangeHost {
        /// Runtime index of the reprogrammable controls, where they are used.
        controls_index: Option<u8>,
    },
    /// Locating its `HostsInfo` feature.
    LocatingHostsInfo {
        /// Runtime index of the reprogrammable controls, where they are used.
        controls_index: Option<u8>,
        /// Runtime index of `ChangeHost`.
        feature_index: u8,
    },
    /// Arming its host controls.
    Arming,
    /// Waiting for a press, an announcement or the end.
    Listening,
    /// Reading the pairing status of a destination.
    Sampling {
        /// What was observed.
        observation: Observation,
    },
    /// Putting its controls back.
    Restoring {
        /// What the session ends with.
        request: Option<HostSwitchRequest>,
    },
    /// Nothing more is asked.
    Finished,
}

/// A capture session, under way.
#[derive(Debug)]
pub struct HostSwitchSession {
    /// How the keyboard is observed.
    pub capture_mode: HostSwitchCaptureMode,
    /// HID++ index of the keyboard.
    pub keyboard_index: u8,
    /// Where it announces departures, if it does.
    pub capture: Option<ChangeHostCapture>,
    /// Its armed controls.
    pub armed: Vec<ArmedControl>,
    /// What was asked for last.
    pub stage: SessionStage,
}

/// Mathematical content of a [`HostSwitchSession`].
pub struct SessionModel {
    /// See [`HostSwitchSession::capture_mode`].
    pub capture_mode: HostSwitchCaptureMode,
    /// See [`HostSwitchSession::keyboard_index`].
    pub keyboard_index: u8,
    /// See [`HostSwitchSession::capture`].
    pub capture: Option<ChangeHostCapture>,
    /// See [`HostSwitchSession::armed`].
    pub armed: Seq<ArmedControl>,
    /// See [`HostSwitchSession::stage`].
    pub stage: SessionStage,
}

impl View for HostSwitchSession {
    type V = SessionModel;

    open spec fn view(&self) -> SessionModel {
        SessionModel {
            capture_mode: self.capture_mode,
            keyboard_index: self.keyboard_index,
            capture: self.capture,
            armed: self.armed@,
            stage: self.stage,
        }
    }
}

/// What came of the operation asked for last, or happened while listening.
pub enum SessionEvent {
    /// The channel was opened, or leads nowhere, or failed to open.
    ChannelOpened(Timed<Option<()>, BackendError>),
    /// The keyboard was opened, or not.
    DeviceOpened(Timed<(), DeviceError>),
    /// The lookup of its reprogrammable controls ended.
    ControlsLocated(Timed<Option<u8>, String>),
    /// The `ChangeHost` lookup ended.
    ChangeHostLocated(Timed<Option<u8>, String>),
    /// The `HostsInfo` lookup ended.
    HostsInfoLocated(Timed<Option<u8>, String>),
    /// Arming ended, having put its controls back where it failed.
    Armed(Result<Vec<ArmedControl>, HostSwitchError>),
    /// A report arrived.
    Reported(ChannelReport),
    /// The session is to end, for a reason that may have been lost.
    Stopped(Option<HostSwitchStopReason>),
    /// The slot read ended.
    SlotRead(Timed<HostSlotReply, String>),
    /// The controls were put back as far as possible.
    Restored,
}

/// Mathematical content of a [`SessionEvent`].
pub enum SessionReply {
    /// See [`SessionEvent::ChannelOpened`].
    ChannelOpened(Result<Option<()>, Fault>),
    /// See [`SessionEvent::DeviceOpened`].
    DeviceOpened(Result<(), Fault>),
    /// See [`SessionEvent::ControlsLocated`].
    ControlsLocated(Result<Option<u8>, Fault>),
    /// See [`SessionEvent::ChangeHostLocated`].
    ChangeHostLocated(Result<Option<u8>, Fault>),
    /// See [`SessionEvent::HostsInfoLocated`].
    HostsInfoLocated(Result<Option<u8>, Fault>),
    /// See [`SessionEvent::Armed`].
    Armed(Result<Seq<ArmedControl>, Fault>),
    /// See [`SessionEvent::Reported`].
    Reported { matched: bool, bytes: Seq<u8>, event: Option<ReprogControlsEvent> },
    /// See [`SessionEvent::Stopped`].
    Stopped(Option<HostSwitchStopReason>),
    /// See [`SessionEvent::SlotRead`].
    SlotRead(Result<HostSlotReply, Fault>),
    /// See [`SessionEvent::Restored`].
    Restored,
}

impl View for SessionEvent {
    type V = SessionReply;

    open spec fn view(&self) -> SessionReply {
        match *self {
            SessionEvent::ChannelOpened(outcome) => SessionReply::ChannelOpened(
                channel_outcome("opening keyboard channel"@, outcome),
            ),
            SessionEvent::DeviceOpened(outcome) => SessionReply::DeviceOpened(
                device_outcome("opening keyboard device"@, outcome),
            ),
            SessionEvent::ControlsLocated(outcome) => SessionReply::ControlsLocated(
                hidpp_outcome("locating host controls"@, outcome),
            ),
            SessionEvent::ChangeHostLocated(outcome) => SessionReply::ChangeHostLocated(
                hidpp_outcome("locating change-host announcements"@, outcome),
            ),
            SessionEvent::HostsInfoLocated(outcome) => SessionReply::HostsInfoLocated(
                hidpp_outcome("locating hosts-info feature"@, outcome),
            ),
            SessionEvent::Armed(Ok(armed)) => SessionReply::Armed(Ok(armed@)),
            SessionEvent::Armed(Err(error)) => SessionReply::Armed(Err(error@)),
            SessionEvent::Reported(report) => SessionReply::Reported {
                matched: report.matched,
                bytes: report.bytes@,
                event: report.event,
            },
            SessionEvent::Stopped(reason) => SessionReply::Stopped(reason),
            SessionEvent::SlotRead(outcome) => SessionReply::SlotRead(
                hidpp_outcome("reading host slot status"@, outcome),
            ),
            SessionEvent::Restored => SessionReply::Restored,
        }
    }
}

/// The operation to perform next.
pub enum SessionAction {
    /// Open the keyboard's channel.
    OpenChannel,
    /// Open the keyboard.
    OpenDevice,
    /// Look up its reprogrammable controls.
    LocateControls,
    /// Look up its `ChangeHost` feature.
    LocateChangeHost,
    /// Look up its `HostsInfo` feature.
    LocateHostsInfo,
    /// Arm its host controls.
    Arm {
        /// Runtime index of the reprogrammable controls.
        controls_index: u8,
    },
    /// Wait for a report, or for the end of the session.
    Listen,
    /// Ask `HostsInfo` for one slot.
    ReadSlot {
        /// Runtime index of `HostsInfo`.
        slots_index: u8,
        /// Zero-based slot.
        host: u8,
    },
    /// Put its controls back.
    Restore {
        /// Controls to put back.
        armed: Vec<ArmedControl>,
        /// How patiently.
        cleanup: ControlCleanup,
    },
    /// The session ended with this request, if any.
    Finish(Result<Option<HostSwitchRequest>, HostSwitchError>),
    /// The event answers nothing that was asked.
    Ignore,
}

/// Mathematical content of a [`SessionAction`].
pub enum SessionStep {
    /// See [`SessionAction::OpenChannel`].
    OpenChannel,
    /// See [`SessionAction::OpenDevice`].
    OpenDevice,
    /// See [`SessionAction::LocateControls`].
    LocateControls,
    /// See [`SessionAction::LocateChangeHost`].
    LocateChangeHost,
    /// See [`SessionAction::LocateHostsInfo`].
    LocateHostsInfo,
    /// See [`SessionAction::Arm`].
    Arm { controls_index: u8 },
    /// See [`SessionAction::Listen`].
    Listen,
    /// See [`SessionAction::ReadSlot`].
    ReadSlot { slots_index: u8, host: u8 },
    /// See [`SessionAction::Restore`].
    Restore { armed: Seq<ArmedControl>, cleanup: ControlCleanup },
    /// See [`SessionAction::Finish`].
    Finish(Result<Option<HostSwitchRequest>, Fault>),
    /// See [`SessionAction::Ignore`].
    Ignore,
}

impl View for SessionAction {
    type V = SessionStep;

    open spec fn view(&self) -> SessionStep {
        match *self {
            SessionAction::OpenChannel => SessionStep::OpenChannel,
            SessionAction::OpenDevice => SessionStep::OpenDevice,
            SessionAction::LocateControls => SessionStep::LocateControls,
            SessionAction::LocateChangeHost => SessionStep::LocateChangeHost,
            SessionAction::LocateHostsInfo => SessionStep::LocateHostsInfo,
            SessionAction::Arm { controls_index } => SessionStep::Arm { controls_index },
            SessionAction::Listen => SessionStep::Listen,
            SessionAction::ReadSlot { slots_index, host } => SessionStep::ReadSlot {
                slots_index,
                host,
            },
            SessionAction::Restore { armed, cleanup } => SessionStep::Restore {
                armed: armed@,
                cleanup,
            },
            SessionAction::Finish(result) => SessionStep::Finish(seen(result)),
            SessionAction::Ignore => SessionStep::Ignore,
        }
    }
}

/// The host that an observation is about.
pub open spec fn observed_host(observation: Observation) -> u8 {
    match observation {
        Observation::Press(captured) => captured.request.host,
        Observation::Departure(host) => host,
    }
}

/// Whether the pairing status of an observation's destination matters.
///
/// A press that a command is going to follow is validated by that command.
pub open spec fn needs_sample(observation: Observation) -> bool {
    match observation {
        Observation::Press(captured) => captured.cleanup == ControlCleanup::Prompt,
        Observation::Departure(_) => true,
    }
}

impl SessionModel {
    /// The control event in a report, as far as the session heeds such events.
    pub open spec fn heeded(self, event: Option<ReprogControlsEvent>) -> Option<
        ReprogControlsEvent,
    > {
        if self.capture_mode == HostSwitchCaptureMode::Full {
            event
        } else {
            None
        }
    }

    /// The same session at another stage.
    pub open spec fn at(self, stage: SessionStage) -> SessionModel {
        SessionModel { stage, ..self }
    }

    /// The end of the session.
    pub open spec fn ended(self, result: Result<Option<HostSwitchRequest>, Fault>) -> (
        SessionModel,
        SessionStep,
    ) {
        (self.at(SessionStage::Finished), SessionStep::Finish(result))
    }

    /// Turns from discovery to arming, or straight to listening.
    pub open spec fn discovered(
        self,
        controls_index: Option<u8>,
        capture: Option<ChangeHostCapture>,
    ) -> (SessionModel, SessionStep) {
        let known = SessionModel { capture, ..self };
        match controls_index {
            Some(controls_index) => (
                known.at(SessionStage::Arming),
                SessionStep::Arm { controls_index },
            ),
            None => (known.at(SessionStage::Listening), SessionStep::Listen),
        }
    }

    /// Hands the armed controls over to be put back.
    pub open spec fn restoring(
        self,
        cleanup: ControlCleanup,
        request: Option<HostSwitchRequest>,
    ) -> (SessionModel, SessionStep) {
        (
            SessionModel {
                armed: Seq::empty(),
                stage: SessionStage::Restoring { request },
                ..self
            },
            SessionStep::Restore { armed: self.armed, cleanup },
        )
    }

    /// Concludes an observation whose destination slot is as given.
    ///
    /// Armed controls are put back first. A keyboard that announced its departure
    /// may be gone any moment, so that its controls are put back promptly.
    pub open spec fn concluded(self, observation: Observation, slot: ReportedHostSlot) -> (
        SessionModel,
        SessionStep,
    ) {
        match observation {
            Observation::Press(captured) => self.restoring(
                captured.cleanup,
                Some(sampled(captured.request, slot)),
            ),
            Observation::Departure(host) => if self.armed.len() > 0 {
                self.restoring(ControlCleanup::Prompt, Some(departure(host, slot)))
            } else {
                self.ended(Ok(Some(departure(host, slot))))
            },
        }
    }

    /// Takes up an observation: its slot is sampled while the keyboard is still
    /// there to ask, where that can be done at all.
    pub open spec fn observed(self, observation: Observation) -> (SessionModel, SessionStep) {
        match self.capture {
            Some(
                ChangeHostCapture { slot_reader: ReportedHostSlotReader::Supported(slots_index), .. },
            ) if needs_sample(observation) => (
                self.at(SessionStage::Sampling { observation }),
                SessionStep::ReadSlot { slots_index, host: observed_host(observation) },
            ),
            _ => self.concluded(observation, ReportedHostSlot::Unknown),
        }
    }

    /// Where the session goes on `reply`, and what it asks for.
    pub open spec fn after(self, reply: SessionReply) -> (SessionModel, SessionStep) {
        match (self.stage, reply) {
            (SessionStage::OpeningChannel, SessionReply::ChannelOpened(opened)) => match opened {
                Ok(Some(_)) => (self.at(SessionStage::OpeningDevice), SessionStep::OpenDevice),
                Ok(None) => self.ended(Err(Fault::KeyboardNotFound)),
                Err(fault) => self.ended(Err(fault)),
            },
            (SessionStage::OpeningDevice, SessionReply::DeviceOpened(opened)) => match opened {
                Ok(_) => if self.capture_mode == HostSwitchCaptureMode::Full {
                    (self.at(SessionStage::LocatingControls), SessionStep::LocateControls)
                } else {
                    (
                        self.at(SessionStage::LocatingChangeHost { controls_index: None }),
                        SessionStep::LocateChangeHost,
                    )
                },
                Err(fault) => self.ended(Err(fault)),
            },
            (SessionStage::LocatingControls, SessionReply::ControlsLocated(located)) =>
                match located {
                    Ok(Some(index)) => (
                        self.at(SessionStage::LocatingChangeHost { controls_index: Some(index) }),
                        SessionStep::LocateChangeHost,
                    ),
                    Ok(None) => self.ended(Err(Fault::UnsupportedKeyboard)),
                    Err(fault) => self.ended(Err(fault)),
                },
            (
                SessionStage::LocatingChangeHost { controls_index },
                SessionReply::ChangeHostLocated(located),
            ) => match (located, controls_index) {
                (Ok(Some(feature_index)), _) => (
                    self.at(SessionStage::LocatingHostsInfo { controls_index, feature_index }),
                    SessionStep::LocateHostsInfo,
                ),
                (_, Some(_)) => self.discovered(controls_index, None),
                (Ok(None), None) => self.ended(Err(Fault::UnsupportedKeyboard)),
                (Err(fault), None) => self.ended(Err(fault)),
            },
            (
                SessionStage::LocatingHostsInfo { controls_index, feature_index },
                SessionReply::HostsInfoLocated(located),
            ) => self.discovered(
                controls_index,
                Some(ChangeHostCapture { feature_index, slot_reader: reader_for(located) }),
            ),
            (SessionStage::Arming, SessionReply::Armed(armed)) => match armed {
                Ok(armed) => if armed.len() == 0 {
                    self.ended(Err(Fault::UnsupportedKeyboard))
                } else {
                    (
                        SessionModel { armed, stage: SessionStage::Listening, ..self },
                        SessionStep::Listen,
                    )
                },
                Err(fault) => self.ended(Err(fault)),
            },
            (SessionStage::Listening, SessionReply::Reported { matched, bytes, event }) =>
                match meaning(
                    matched,
                    bytes,
                    self.heeded(event),
                    self.armed,
                    self.keyboard_index,
                    self.capture,
                ) {
                    Some(observation) => self.observed(observation),
                    None => (self, SessionStep::Listen),
                },
            (SessionStage::Listening, SessionReply::Stopped(reason)) => if reason == Some(
                HostSwitchStopReason::Graceful,
            ) && self.capture_mode == HostSwitchCaptureMode::Full {
                self.restoring(ControlCleanup::Full, None)
            } else {
                self.ended(Ok(None))
            },
            (SessionStage::Sampling { observation }, SessionReply::SlotRead(read)) =>
                self.concluded(observation, slot_proved(observed_host(observation), read)),
            (SessionStage::Restoring { request }, SessionReply::Restored) => self.ended(
                Ok(request),
            ),
            _ => (self, SessionStep::Ignore),
        }
    }
}

impl HostSwitchSession {
    fn finish(&mut self, result: Result<Option<HostSwitchRequest>, HostSwitchError>) -> (action:
        SessionAction)
        ensures
            (final(self)@, action@) == old(self)@.ended(seen(result)),
    {
        self.stage = SessionStage::Finished;
        SessionAction::Finish(result)
    }

    fn discover(&mut self, controls_index: Option<u8>, capture: Option<ChangeHostCapture>)
        -> (action: SessionAction)
        ensures
            (final(self)@, action@) == old(self)@.discovered(controls_index, capture),
    {
        self.capture = capture;
        match controls_index {
            Some(controls_index) => {
                self.stage = SessionStage::Arming;
                SessionAction::Arm { controls_index }
            },
            None => {
                self.stage = SessionStage::Listening;
                SessionAction::Listen
            },
        }
    }

    fn restore(&mut self, cleanup: ControlCleanup, request: Option<HostSwitchRequest>) -> (action:
        SessionAction)
        ensures
            (final(self)@, action@) == old(self)@.restoring(cleanup, request),
    {
        let mut armed: Vec<ArmedControl> = Vec::new();
        core::mem::swap(&mut armed, &mut self.armed);
        self.stage = SessionStage::Restoring { request };
        assert(self.armed@ =~= Seq::empty());
        SessionAction::Restore { armed, cleanup }
    }

    fn conclude(&mut self, observation: Observation, slot: ReportedHostSlot) -> (action:
        SessionAction)
        ensures
            (final(self)@, action@) == old(self)@.concluded(observation, slot),
    {
        match observation {
            Observation::Press(captured) => {
                let request = finish_captured_control(captured, slot);
                self.restore(captured.cleanup, Some(request))
            },
            Observation::Departure(host) => {
                let request = departure_request(host, slot);
                if self.armed.len() > 0 {
                    self.restore(ControlCleanup::Prompt, Some(request))
                } else {
                    self.finish(Ok(Some(request)))
                }
            },
        }
    }

    fn observe(&mut self, observation: Observation) -> (action: SessionAction)
        ensures
            (final(self)@, action@) == old(self)@.observed(observation),
    {
        let (host, sample) = match observation {
            Observation::Press(captured) => (
                captured.request.host,
                captured.cleanup == ControlCleanup::Prompt,
            ),
            Observation::Departure(host) => (host, true),
        };
        if let Some(capture) = self.capture {
            if sample {
                if let Ok(slots_index) = capture.slot_reader.read_one() {
                    self.stage = SessionStage::Sampling { observation };
                    return SessionAction::ReadSlot { slots_index, host };
                }
            }
        }
        self.conclude(observation, ReportedHostSlot::Unknown)
    }

    /// Takes what came of the last operation and names the next one.
    pub fn advance(&mut self, event: SessionEvent) -> (action: SessionAction)
        ensures
            (final(self)@, action@) == old(self)@.after(event@),
    {
        match (self.stage, event) {
            (SessionStage::OpeningChannel, SessionEvent::ChannelOpened(outcome)) =>
                match open_channel("opening keyboard channel", outcome) {
                    Ok(Some(_)) => {
                        self.stage = SessionStage::OpeningDevice;
                        SessionAction::OpenDevice
                    },
                    Ok(None) => self.finish(Err(HostSwitchError::KeyboardNotFound)),
                    Err(error) => self.finish(Err(error)),
                },
            (SessionStage::OpeningDevice, SessionEvent::DeviceOpened(outcome)) =>
                match timed_device("opening keyboard device", outcome) {
                    Ok(_) => {
                        if self.capture_mode == HostSwitchCaptureMode::Full {
                            self.stage = SessionStage::LocatingControls;
                            SessionAction::LocateControls
                        } else {
                            self.stage = SessionStage::LocatingChangeHost { controls_index: None };
                            SessionAction::LocateChangeHost
                        }
                    },
                    Err(error) => self.finish(Err(error)),
                },
            (SessionStage::LocatingControls, SessionEvent::ControlsLocated(outcome)) =>
                match timed_hidpp("locating host controls", outcome) {
                    Ok(Some(index)) => {
                        self.stage =
                        SessionStage::LocatingChangeHost { controls_index: Some(index) };
                        SessionAction::LocateChangeHost
                    },
                    Ok(None) => self.finish(Err(HostSwitchError::UnsupportedKeyboard)),
                    Err(error) => self.finish(Err(error)),
                },
            (
                SessionStage::LocatingChangeHost { controls_index },
                SessionEvent::ChangeHostLocated(outcome),
            ) => {
                let located = timed_hidpp("locating change-host announcements", outcome);
                match (located, controls_index) {
                    (Ok(Some(feature_index)), _) => {
                        self.stage =
                        SessionStage::LocatingHostsInfo { controls_index, feature_index };
                        SessionAction::LocateHostsInfo
                    },
                    (_, Some(_)) => self.discover(controls_index, None),
                    (Ok(None), None) => self.finish(Err(HostSwitchError::UnsupportedKeyboard)),
                    (Err(error), None) => self.finish(Err(error)),
                }
            },
            (
                SessionStage::LocatingHostsInfo { controls_index, feature_index },
                SessionEvent::HostsInfoLocated(outcome),
            ) => {
                let located = timed_hidpp("locating hosts-info feature", outcome);
                let slot_reader = ReportedHostSlotReader::resolve(located);
                self.discover(
                    controls_index,
                    Some(ChangeHostCapture { feature_index, slot_reader }),
                )
            },
            (SessionStage::Arming, SessionEvent::Armed(result)) => match result {
                Ok(armed) => {
                    if armed.len() == 0 {
                        self.finish(Err(HostSwitchError::UnsupportedKeyboard))
                    } else {
                        self.armed = armed;
                        self.stage = SessionStage::Listening;
                        SessionAction::Listen
                    }
                },
                Err(error) => self.finish(Err(error)),
            },
            (SessionStage::Listening, SessionEvent::Reported(report)) => {
                let event = if self.capture_mode == HostSwitchCaptureMode::Full {
                    report.event
                } else {
                    None
                };
                match observe_report(
                    report.matched,
                    report.bytes.as_slice(),
                    event,
                    self.armed.as_slice(),
                    self.keyboard_index,
                    self.capture,
                ) {
                    Some(observation) => self.observe(observation),
                    None => SessionAction::Listen,
                }
            },
            (SessionStage::Listening, SessionEvent::Stopped(reason)) => {
                let reason = reason.unwrap_or(HostSwitchStopReason::DeviceLost);
                if reason == HostSwitchStopReason::Graceful && self.capture_mode
                    == HostSwitchCaptureMode::Full {
                    self.restore(ControlCleanup::Full, None)
                } else {
                    self.finish(Ok(None))
                }
            },
            (SessionStage::Sampling { observation }, SessionEvent::SlotRead(outcome)) => {
                let read = timed_hidpp("reading host slot status", outcome);
                let host = match observation {
                    Observation::Press(captured) => captured.request.host,
                    Observation::Departure(host) => host,
                };
                self.conclude(observation, read_host_slot(host, read))
            },
            (SessionStage::Restoring { request }, SessionEvent::Restored) => self.finish(
                Ok(request),
            ),
            _ => SessionAction::Ignore,
        }
    }
}

/// A session that has yet to open its keyboard's channel.
pub open spec fn session(keyboard_index: u8, capture_mode: HostSwitchCaptureMode) -> SessionModel {
    SessionModel {
        capture_mode,
        keyboard_index,
        capture: None,
        armed: Seq::empty(),
        stage: SessionStage::OpeningChannel,
    }
}

/// Begins to capture host keys on a keyboard until one is pressed or the
/// session is stopped. Controls are put back before a requested host is
/// returned.
pub fn run_host_switch_session(keyboard_index: u8, capture_mode: HostSwitchCaptureMode) -> (begun: (
    HostSwitchSession,
    SessionAction,
))
    ensures
        begun.0@ == session(keyboard_index, capture_mode),
        begun.1@ == SessionStep::OpenChannel,
{
    let session = HostSwitchSession {
        capture_mode,
        keyboard_index,
        capture: None,
        armed: Vec::new(),
        stage: SessionStage::OpeningChannel,
    };
    assert(session@.armed =~= Seq::empty());
    (session, SessionAction::OpenChannel)
}

} // verus!
