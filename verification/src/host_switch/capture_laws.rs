//! What a capture session makes of its keyboard's answers and reports.

use vstd::prelude::*;

use crate::host_switch::controls::{
    captured_press, ArmedControl, CapturedControl, ControlCleanup, ReprogControlsEvent,
};
use crate::host_switch::error::Fault;
use crate::host_switch::message::{announced_host, MessageView};
use crate::host_switch::request::{
    HostSwitchCaptureMode, HostSwitchRequest, HostSwitchStopReason, KeyboardHostTransition,
};
use crate::host_switch::session::{
    meaning, session, ChangeHostCapture, Observation, SessionModel, SessionReply, SessionStage,
    SessionStep,
};
use crate::host_switch::session_laws::{session_asks, session_at};
use crate::host_switch::slots::{
    slot_proved, HostSlotReply, ReportedHostSlot, ReportedHostSlotReader,
};

verus! {

/// A report announces a departure exactly where it is an event of function zero
/// of the keyboard's `ChangeHost` feature that names one of its three hosts: then
/// the sixth byte is the destination. That holds of long reports and of short
/// ones.
pub proof fn an_announcement_names_its_destination(
    bytes: Seq<u8>,
    armed: Seq<ArmedControl>,
    keyboard_index: u8,
    capture: ChangeHostCapture,
)
    requires
        bytes.len() == 20 && bytes[0] == 0x11 || bytes.len() == 7 && bytes[0] == 0x10,
    ensures
        meaning(false, bytes, None, armed, keyboard_index, Some(capture)) == if bytes[1]
            == keyboard_index && bytes[2] == capture.feature_index && bytes[3] == 0 && bytes[5] < 3 {
            Some(Observation::Departure(bytes[5]))
        } else {
            None
        },
{
    let b = bytes[3];
    assert(b / 16 == 0 && b % 16 == 0 <==> b == 0);
}

/// A message announces a host exactly where it is an event, with no software to
/// answer, of function zero of that device and that feature, and the second byte
/// of what it says is one of the device's hosts.
pub proof fn an_announcement_is_an_event_of_function_zero(
    message: MessageView,
    device_index: u8,
    feature_index: u8,
    host_count: u8,
    host: u8,
)
    ensures
        announced_host(message, device_index, feature_index, host_count) == Some(host) <==> {
            &&& message.header.device_index == device_index
            &&& message.header.feature_index == feature_index
            &&& message.header.function_id == 0
            &&& message.header.software_id == 0
            &&& message.payload[1] == host
            &&& host < host_count
        },
{
}

/// A press of an armed key is observed as what the armed controls make of it,
/// whether or not departures are announced as well. A control event is never
/// taken for an announcement.
pub proof fn a_control_event_is_a_press_or_nothing(
    bytes: Seq<u8>,
    event: ReprogControlsEvent,
    armed: Seq<ArmedControl>,
    keyboard_index: u8,
    capture: Option<ChangeHostCapture>,
    captured: CapturedControl,
)
    requires
        bytes.len() == 20 && bytes[0] == 0x11 || bytes.len() == 7 && bytes[0] == 0x10,
    ensures
        captured_press(armed, event) == Some(captured) ==> meaning(
            false,
            bytes,
            Some(event),
            armed,
            keyboard_index,
            capture,
        ) == Some(Observation::Press(captured)),
        captured_press(armed, event) is None ==> meaning(
            false,
            bytes,
            Some(event),
            armed,
            keyboard_index,
            capture,
        ) is None,
{
}

/// Answers to requests, reports that are not HID++, and events of a keyboard
/// that neither reports a control nor announces departures mean nothing.
pub proof fn other_reports_mean_nothing(
    matched: bool,
    bytes: Seq<u8>,
    event: Option<ReprogControlsEvent>,
    armed: Seq<ArmedControl>,
    keyboard_index: u8,
    capture: Option<ChangeHostCapture>,
)
    requires
        matched || !(bytes.len() == 20 && bytes[0] == 0x11 || bytes.len() == 7 && bytes[0] == 0x10)
            || (event is None && capture is None),
    ensures
        meaning(matched, bytes, event, armed, keyboard_index, capture) is None,
{
}

/// A session that listens for announcements only pays no heed to control
/// events.
pub proof fn an_announcement_session_heeds_no_control_event(
    model: SessionModel,
    matched: bool,
    bytes: Seq<u8>,
    event: ReprogControlsEvent,
)
    requires
        model.capture_mode == HostSwitchCaptureMode::ChangeHostAnnouncement,
    ensures
        model.after(SessionReply::Reported { matched, bytes, event: Some(event) }) == model.after(
            SessionReply::Reported { matched, bytes, event: None },
        ),
{
}

/// A report without meaning leaves a listening session listening, as it was.
pub proof fn a_meaningless_report_changes_nothing(
    model: SessionModel,
    matched: bool,
    bytes: Seq<u8>,
    event: Option<ReprogControlsEvent>,
)
    requires
        model.stage is Listening,
        matched || !(bytes.len() == 20 && bytes[0] == 0x11 || bytes.len() == 7 && bytes[0] == 0x10),
    ensures
        model.after(SessionReply::Reported { matched, bytes, event }) == (model, SessionStep::Listen),
{
}

/// A listening session takes up what a report means to it.
pub proof fn a_listening_session_takes_up_what_it_observes(
    model: SessionModel,
    matched: bool,
    bytes: Seq<u8>,
    event: Option<ReprogControlsEvent>,
    observation: Observation,
)
    requires
        model.stage is Listening,
        model.capture_mode == HostSwitchCaptureMode::Full || event is None,
        meaning(matched, bytes, event, model.armed, model.keyboard_index, model.capture) == Some(
            observation,
        ),
    ensures
        model.after(SessionReply::Reported { matched, bytes, event }) == model.observed(observation),
{
}

/// What a session comes to from an observation on, given the answer to a slot
/// read if it makes one: the steps after the observation and after that answer.
pub open spec fn settled(
    model: SessionModel,
    observation: Observation,
    read: Result<HostSlotReply, Fault>,
) -> (SessionModel, SessionStep) {
    let (asking, asked) = model.observed(observation);
    if asked is ReadSlot {
        asking.after(SessionReply::SlotRead(read))
    } else {
        (asking, asked)
    }
}

/// The slot of an announced departure is asked for wherever the keyboard can
/// report slots. Restored controls or none, the session ends with a departure
/// for the announced host, and with what the read proved of its slot.
pub proof fn an_announced_departure_is_returned_as_sampled(
    model: SessionModel,
    host: u8,
    read: Result<HostSlotReply, Fault>,
    slots_index: u8,
)
    ensures
        ({
            let supported = model.capture matches Some(capture) && capture.slot_reader
                == ReportedHostSlotReader::Supported(slots_index);
            let readable = model.capture matches Some(capture) && capture.slot_reader is Supported;
            let request = HostSwitchRequest {
                host,
                keyboard_transition: KeyboardHostTransition::AlreadyDeparting {
                    host_slot: if readable {
                        slot_proved(host, read)
                    } else {
                        ReportedHostSlot::Unknown
                    },
                },
            };
            let (state, step) = settled(model, Observation::Departure(host), read);
            &&& supported ==> model.observed(Observation::Departure(host)).1 == (
            SessionStep::ReadSlot { slots_index, host })
            &&& model.armed.len() == 0 ==> step == SessionStep::Finish(Ok(Some(request)))
            &&& model.armed.len() > 0 ==> step == (SessionStep::Restore {
                armed: model.armed,
                cleanup: ControlCleanup::Prompt,
            }) && state.after(SessionReply::Restored).1 == SessionStep::Finish(Ok(Some(request)))
        }),
{
}

/// A press that leaves the keyboard in place is not sampled: the controls are
/// put back with a retry, and the request comes out as it was captured.
pub proof fn a_commanded_press_is_returned_as_captured(
    model: SessionModel,
    host: u8,
    read: Result<HostSlotReply, Fault>,
)
    ensures
        ({
            let request = HostSwitchRequest {
                host,
                keyboard_transition: KeyboardHostTransition::CommandRequired,
            };
            let press = Observation::Press(
                CapturedControl { request, cleanup: ControlCleanup::Full },
            );
            let (state, step) = model.observed(press);
            &&& step == (SessionStep::Restore { armed: model.armed, cleanup: ControlCleanup::Full })
            &&& state.after(SessionReply::Restored).1 == SessionStep::Finish(Ok(Some(request)))
        }),
{
}

/// A press that takes effect by itself is sampled wherever the keyboard can
/// report slots. The controls are put back promptly, and the request comes out
/// with what the read proved of its slot.
pub proof fn an_analytics_press_is_returned_as_sampled(
    model: SessionModel,
    host: u8,
    before: ReportedHostSlot,
    read: Result<HostSlotReply, Fault>,
    slots_index: u8,
)
    ensures
        ({
            let supported = model.capture matches Some(capture) && capture.slot_reader
                == ReportedHostSlotReader::Supported(slots_index);
            let readable = model.capture matches Some(capture) && capture.slot_reader is Supported;
            let press = Observation::Press(
                CapturedControl {
                    request: HostSwitchRequest {
                        host,
                        keyboard_transition: KeyboardHostTransition::AnalyticsEvent {
                            host_slot: before,
                        },
                    },
                    cleanup: ControlCleanup::Prompt,
                },
            );
            let (state, step) = settled(model, press, read);
            &&& supported ==> model.observed(press).1 == (SessionStep::ReadSlot {
                slots_index,
                host,
            })
            &&& step == (SessionStep::Restore {
                armed: model.armed,
                cleanup: ControlCleanup::Prompt,
            })
            &&& state.after(SessionReply::Restored).1 == SessionStep::Finish(
                Ok(
                    Some(
                        HostSwitchRequest {
                            host,
                            keyboard_transition: KeyboardHostTransition::AnalyticsEvent {
                                host_slot: if readable {
                                    slot_proved(host, read)
                                } else {
                                    ReportedHostSlot::Unknown
                                },
                            },
                        },
                    ),
                ),
            )
        }),
{
}

/// A graceful stop of a session that armed controls puts them back with a retry.
/// Any other stop ends the session at once. Either way no request is returned.
pub proof fn only_a_graceful_stop_restores(
    model: SessionModel,
    reason: Option<HostSwitchStopReason>,
)
    requires
        model.stage is Listening,
    ensures
        ({
            let (after, step) = model.after(SessionReply::Stopped(reason));
            if reason == Some(HostSwitchStopReason::Graceful) && model.capture_mode
                == HostSwitchCaptureMode::Full {
                &&& step == (SessionStep::Restore {
                    armed: model.armed,
                    cleanup: ControlCleanup::Full,
                })
                &&& after.after(SessionReply::Restored).1 == SessionStep::Finish(Ok(None))
            } else {
                step == SessionStep::Finish(Ok(None))
            }
        }),
{
}

/// What a keyboard answers while a session is set up.
pub struct SetupAnswers {
    /// Opening its channel.
    pub channel: Result<Option<()>, Fault>,
    /// Opening the keyboard.
    pub device: Result<(), Fault>,
    /// Locating its reprogrammable controls.
    pub controls: Result<Option<u8>, Fault>,
    /// Locating `ChangeHost`.
    pub change_host: Result<Option<u8>, Fault>,
    /// Locating `HostsInfo`.
    pub hosts_info: Result<Option<u8>, Fault>,
    /// Arming its host controls.
    pub armed: Result<Seq<ArmedControl>, Fault>,
}

impl SetupAnswers {
    /// The keyboard's answer to one step.
    pub open spec fn reply_to(self, step: SessionStep) -> SessionReply {
        match step {
            SessionStep::OpenChannel => SessionReply::ChannelOpened(self.channel),
            SessionStep::OpenDevice => SessionReply::DeviceOpened(self.device),
            SessionStep::LocateControls => SessionReply::ControlsLocated(self.controls),
            SessionStep::LocateChangeHost => SessionReply::ChangeHostLocated(self.change_host),
            SessionStep::LocateHostsInfo => SessionReply::HostsInfoLocated(self.hosts_info),
            _ => SessionReply::Armed(self.armed),
        }
    }

    /// Access to slot status, as the `HostsInfo` lookup leaves it.
    pub open spec fn slot_access(self) -> ReportedHostSlotReader {
        match self.hosts_info {
            Ok(Some(index)) => ReportedHostSlotReader::Supported(index),
            Ok(None) => ReportedHostSlotReader::Unsupported,
            Err(_) => ReportedHostSlotReader::Unavailable,
        }
    }
}

/// Where a session is once the keyboard has answered up to `rounds` steps of its
/// setup.
pub open spec fn set_up(
    at: SessionModel,
    step: SessionStep,
    answers: SetupAnswers,
    rounds: nat,
) -> (SessionModel, SessionStep)
    decreases rounds,
{
    if rounds == 0 || step is Listen || step is Finish {
        (at, step)
    } else {
        let next = at.after(answers.reply_to(step));
        set_up(next.0, next.1, answers, (rounds - 1) as nat)
    }
}

/// What the whole setup of a session leads to.
pub open spec fn setup(
    keyboard_index: u8,
    mode: HostSwitchCaptureMode,
    answers: SetupAnswers,
) -> (SessionModel, SessionStep) {
    set_up(session(keyboard_index, mode), SessionStep::OpenChannel, answers, 6)
}

/// The setup of a session ends with the first failure: of the channel, which may
/// lead to no keyboard, or of the keyboard.
pub proof fn a_session_needs_its_keyboard(
    keyboard_index: u8,
    mode: HostSwitchCaptureMode,
    answers: SetupAnswers,
    fault: Fault,
)
    ensures
        answers.channel == Err::<Option<()>, Fault>(fault) ==> setup(keyboard_index, mode, answers).1
            == SessionStep::Finish(Err(fault)),
        answers.channel == Ok::<Option<()>, Fault>(None) ==> setup(keyboard_index, mode, answers).1
            == SessionStep::Finish(Err(Fault::KeyboardNotFound)),
        (answers.channel matches Ok(opened) && opened is Some) && answers.device == Err::<
            (),
            Fault,
        >(fault) ==> setup(keyboard_index, mode, answers).1 == SessionStep::Finish(Err(fault)),
{
    reveal_with_fuel(set_up, 7);
}

/// A session that captures keys listens exactly where the keyboard has
/// reprogrammable controls and at least one of its host controls was armed. It
/// then holds what was armed, and also hears announcements wherever the
/// `ChangeHost` lookup found the feature; that lookup may fail.
pub proof fn a_full_session_listens_once_controls_are_armed(
    keyboard_index: u8,
    answers: SetupAnswers,
)
    requires
        answers.channel matches Ok(opened) && opened is Some,
        answers.device is Ok,
    ensures
        ({
            let (state, step) = setup(keyboard_index, HostSwitchCaptureMode::Full, answers);
            match (answers.controls, answers.armed) {
                (Err(fault), _) => step == SessionStep::Finish(Err(fault)),
                (Ok(None), _) => step == SessionStep::Finish(Err(Fault::UnsupportedKeyboard)),
                (Ok(Some(_)), Err(fault)) => step == SessionStep::Finish(Err(fault)),
                (Ok(Some(_)), Ok(armed)) => if armed.len() == 0 {
                    step == SessionStep::Finish(Err(Fault::UnsupportedKeyboard))
                } else {
                    &&& step is Listen
                    &&& state.stage is Listening
                    &&& state.capture_mode == HostSwitchCaptureMode::Full
                    &&& state.keyboard_index == keyboard_index
                    &&& state.armed == armed
                    &&& state.capture == match answers.change_host {
                        Ok(Some(feature_index)) => Some(
                            ChangeHostCapture { feature_index, slot_reader: answers.slot_access() },
                        ),
                        _ => None,
                    }
                },
            }
        }),
{
    reveal_with_fuel(set_up, 7);
}

/// A session that hears announcements only listens exactly where the keyboard
/// has `ChangeHost`, and arms nothing.
pub proof fn an_announcement_session_listens_where_departures_are_announced(
    keyboard_index: u8,
    answers: SetupAnswers,
)
    requires
        answers.channel matches Ok(opened) && opened is Some,
        answers.device is Ok,
    ensures
        ({
            let (state, step) = setup(
                keyboard_index,
                HostSwitchCaptureMode::ChangeHostAnnouncement,
                answers,
            );
            match answers.change_host {
                Err(fault) => step == SessionStep::Finish(Err(fault)),
                Ok(None) => step == SessionStep::Finish(Err(Fault::UnsupportedKeyboard)),
                Ok(Some(feature_index)) => {
                    &&& step is Listen
                    &&& state.stage is Listening
                    &&& state.capture_mode == HostSwitchCaptureMode::ChangeHostAnnouncement
                    &&& state.keyboard_index == keyboard_index
                    &&& state.armed.len() == 0
                    &&& state.capture == Some(
                        ChangeHostCapture { feature_index, slot_reader: answers.slot_access() },
                    )
                },
            }
        }),
{
    reveal_with_fuel(set_up, 7);
}

/// The reprogrammable controls were located at this index by one of the first
/// `n` replies.
pub open spec fn controls_located_within(
    replies: Seq<SessionReply>,
    n: int,
    index: u8,
) -> bool {
    exists|j: int|
        0 <= j < n && #[trigger] replies[j] == SessionReply::ControlsLocated(Ok(Some(index)))
}

proof fn a_known_index_was_located(
    keyboard_index: u8,
    mode: HostSwitchCaptureMode,
    replies: Seq<SessionReply>,
    n: int,
)
    requires
        0 <= n <= replies.len(),
    ensures
        match session_at(keyboard_index, mode, replies, n).stage {
            SessionStage::LocatingChangeHost { controls_index: Some(index) } =>
                controls_located_within(replies, n, index),
            SessionStage::LocatingHostsInfo { controls_index: Some(index), .. } =>
                controls_located_within(replies, n, index),
            _ => true,
        },
    decreases n,
{
    if n > 0 {
        a_known_index_was_located(keyboard_index, mode, replies, n - 1);
        let before = session_at(keyboard_index, mode, replies, n - 1);
        let after = session_at(keyboard_index, mode, replies, n);
        assert forall|index: u8| controls_located_within(replies, n - 1, index) implies
            #[trigger] controls_located_within(replies, n, index) by {
            let j = choose|j: int|
                0 <= j < n - 1 && #[trigger] replies[j] == SessionReply::ControlsLocated(
                    Ok(Some(index)),
                );
            assert(replies[j] == SessionReply::ControlsLocated(Ok(Some(index))));
        }
        if before.stage is LocatingControls {
            if let SessionStage::LocatingChangeHost { controls_index: Some(index) } = after.stage {
                assert(replies[n - 1] == SessionReply::ControlsLocated(Ok(Some(index))));
            }
        }
    }
}

/// Controls are armed at the index at which they were located.
pub proof fn controls_are_armed_where_they_were_located(
    keyboard_index: u8,
    mode: HostSwitchCaptureMode,
    replies: Seq<SessionReply>,
    n: int,
    controls_index: u8,
)
    requires
        0 <= n <= replies.len(),
        session_asks(keyboard_index, mode, replies, n) == (SessionStep::Arm { controls_index }),
    ensures
        controls_located_within(replies, n, controls_index),
{
    a_known_index_was_located(keyboard_index, mode, replies, n - 1);
    let j = choose|j: int|
        0 <= j < n - 1 && #[trigger] replies[j] == SessionReply::ControlsLocated(
            Ok(Some(controls_index)),
        );
    assert(replies[j] == SessionReply::ControlsLocated(Ok(Some(controls_index))));
}

} // verus!
