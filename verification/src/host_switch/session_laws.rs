//! What holds of every capture session, whatever the keyboard answers.

use vstd::prelude::*;

use crate::host_switch::controls::{ArmedControl, ControlCleanup};
use crate::host_switch::error::Fault;
use crate::host_switch::request::{
    HostSwitchCaptureMode, HostSwitchRequest, HostSwitchStopReason, KeyboardHostTransition,
};
use crate::host_switch::session::{
    departure, observed_host, session, Observation, SessionModel, SessionReply, SessionStage,
    SessionStep, EASY_SWITCH_HOST_COUNT,
};
use crate::host_switch::slots::{slot_proved, HostSlotReply, ReportedHostSlot};

verus! {

/// A session after the first `n` replies.
pub open spec fn session_at(
    keyboard_index: u8,
    mode: HostSwitchCaptureMode,
    replies: Seq<SessionReply>,
    n: int,
) -> SessionModel
    decreases n,
{
    if n <= 0 {
        session(keyboard_index, mode)
    } else {
        session_at(keyboard_index, mode, replies, n - 1).after(replies[n - 1]).0
    }
}

/// What a session asks for after the first `n` replies.
pub open spec fn session_asks(
    keyboard_index: u8,
    mode: HostSwitchCaptureMode,
    replies: Seq<SessionReply>,
    n: int,
) -> SessionStep {
    if n <= 0 {
        SessionStep::OpenChannel
    } else {
        session_at(keyboard_index, mode, replies, n - 1).after(replies[n - 1]).1
    }
}

/// The controls are those of an arming among the first `n` replies.
pub open spec fn armed_within(
    replies: Seq<SessionReply>,
    n: int,
    armed: Seq<ArmedControl>,
) -> bool {
    exists|i: int| 0 <= i < n && #[trigger] replies[i] == SessionReply::Armed(Ok(armed))
}

/// The step restores exactly the controls that the first `n` replies armed, and
/// does so this patiently.
pub open spec fn restores_armed(
    step: SessionStep,
    cleanup: ControlCleanup,
    replies: Seq<SessionReply>,
    n: int,
) -> bool {
    match step {
        SessionStep::Restore { armed, cleanup: patience } => patience == cleanup && armed_within(
            replies,
            n,
            armed,
        ),
        _ => false,
    }
}

/// Within its first `n` steps the session restored what it had armed, this
/// patiently.
pub open spec fn put_back(
    keyboard_index: u8,
    mode: HostSwitchCaptureMode,
    cleanup: ControlCleanup,
    replies: Seq<SessionReply>,
    n: int,
) -> bool {
    exists|j: int|
        0 <= j < n && restores_armed(
            #[trigger] session_asks(keyboard_index, mode, replies, j),
            cleanup,
            replies,
            j,
        )
}

/// How patiently controls are restored before a session ends so: a keyboard
/// that may be leaving is not waited for.
pub open spec fn fitting_cleanup(request: Option<HostSwitchRequest>) -> ControlCleanup {
    match request {
        Some(request) if !(request.keyboard_transition is CommandRequired) =>
            ControlCleanup::Prompt,
        _ => ControlCleanup::Full,
    }
}

proof fn mode_is_kept(
    keyboard_index: u8,
    mode: HostSwitchCaptureMode,
    replies: Seq<SessionReply>,
    n: int,
)
    requires
        0 <= n <= replies.len(),
    ensures
        session_at(keyboard_index, mode, replies, n).capture_mode == mode,
    decreases n,
{
    if n > 0 {
        mode_is_kept(keyboard_index, mode, replies, n - 1);
    }
}

proof fn listening_session_holds_what_it_armed(
    keyboard_index: u8,
    mode: HostSwitchCaptureMode,
    replies: Seq<SessionReply>,
    n: int,
)
    requires
        0 <= n <= replies.len(),
        mode == HostSwitchCaptureMode::Full,
    ensures
        ({
            let model = session_at(keyboard_index, mode, replies, n);
            &&& model.stage is Listening || model.stage is Sampling ==> armed_within(
                replies,
                n,
                model.armed,
            )
            &&& (model.stage matches SessionStage::Restoring { request } ==> put_back(
                keyboard_index,
                mode,
                fitting_cleanup(request),
                replies,
                n + 1,
            ))
            &&& (model.stage is Listening || model.stage is Sampling ==> model.armed.len() > 0)
            &&& (model.stage matches SessionStage::Sampling {
                observation: Observation::Press(captured),
            } ==> captured.cleanup == ControlCleanup::Prompt
                && captured.request.keyboard_transition is AnalyticsEvent)
            &&& (model.stage matches SessionStage::LocatingChangeHost { controls_index }
                ==> controls_index is Some)
            &&& (model.stage matches SessionStage::LocatingHostsInfo { controls_index, .. }
                ==> controls_index is Some)
        }),
    decreases n,
{
    if n > 0 {
        listening_session_holds_what_it_armed(keyboard_index, mode, replies, n - 1);
        mode_is_kept(keyboard_index, mode, replies, n - 1);
        let before = session_at(keyboard_index, mode, replies, n - 1);
        let after = session_at(keyboard_index, mode, replies, n);
        if before.stage is Listening || before.stage is Sampling {
            let i = choose|i: int|
                0 <= i < n - 1 && #[trigger] replies[i] == SessionReply::Armed(Ok(before.armed));
            assert(armed_within(replies, n, before.armed)) by {
                assert(replies[i] == SessionReply::Armed(Ok(before.armed)));
            }
            if let SessionStage::Restoring { request } = after.stage {
                assert(restores_armed(
                    session_asks(keyboard_index, mode, replies, n),
                    fitting_cleanup(request),
                    replies,
                    n,
                ));
            }
        } else if let SessionStage::Restoring { request } = before.stage {
            let cleanup = fitting_cleanup(request);
            let j = choose|j: int|
                0 <= j < n && restores_armed(
                    #[trigger] session_asks(keyboard_index, mode, replies, j),
                    cleanup,
                    replies,
                    j,
                );
            assert(restores_armed(
                session_asks(keyboard_index, mode, replies, j),
                cleanup,
                replies,
                j,
            ));
        } else if before.stage is Arming && after.stage is Listening {
            assert(replies[n - 1] == SessionReply::Armed(Ok(after.armed)));
        }
    }
}

/// A full session that ends without an error has handed every control it armed
/// over to be put back, unless it was stopped because the keyboard is lost; so
/// no request is ever returned before that. A keyboard that may be leaving is
/// put back promptly, any other with a retry.
pub proof fn controls_are_restored_before_a_request_is_returned(
    keyboard_index: u8,
    replies: Seq<SessionReply>,
    n: int,
    request: Option<HostSwitchRequest>,
)
    requires
        0 <= n <= replies.len(),
        session_asks(keyboard_index, HostSwitchCaptureMode::Full, replies, n)
            == SessionStep::Finish(Ok(request)),
    ensures
        ({
            ||| put_back(
                keyboard_index,
                HostSwitchCaptureMode::Full,
                fitting_cleanup(request),
                replies,
                n,
            )
            ||| request is None && (replies[n - 1] matches SessionReply::Stopped(reason) && reason
                != Some(HostSwitchStopReason::Graceful))
        }),
{
    listening_session_holds_what_it_armed(
        keyboard_index,
        HostSwitchCaptureMode::Full,
        replies,
        n - 1,
    );
    mode_is_kept(keyboard_index, HostSwitchCaptureMode::Full, replies, n - 1);
}

/// Whatever ends a session with armed controls, and whatever its slot read
/// gives, the very next step restores all of them, and the session then returns
/// a request for the host that was pressed or announced.
pub proof fn an_observation_ends_in_its_request(
    model: SessionModel,
    observation: Observation,
    read: Result<HostSlotReply, Fault>,
)
    requires
        model.armed.len() > 0,
    ensures
        ({
            let (asking, asked) = model.observed(observation);
            let (restoring, restore) = if asked is ReadSlot {
                asking.after(SessionReply::SlotRead(read))
            } else {
                (asking, asked)
            };
            &&& restore == (SessionStep::Restore {
                armed: model.armed,
                cleanup: match observation {
                    Observation::Press(captured) => captured.cleanup,
                    Observation::Departure(_) => ControlCleanup::Prompt,
                },
            })
            &&& (restoring.after(SessionReply::Restored).1 matches SessionStep::Finish(
                Ok(Some(request)),
            ) && request.host == observed_host(observation))
        }),
{
}

proof fn announcement_session_stays_clear_of_controls(
    keyboard_index: u8,
    replies: Seq<SessionReply>,
    n: int,
)
    requires
        0 <= n <= replies.len(),
    ensures
        ({
            let model = session_at(
                keyboard_index,
                HostSwitchCaptureMode::ChangeHostAnnouncement,
                replies,
                n,
            );
            &&& model.armed.len() == 0
            &&& !(model.stage is LocatingControls)
            &&& !(model.stage is Arming)
            &&& !(model.stage is Restoring)
            &&& (model.stage matches SessionStage::LocatingChangeHost { controls_index }
                ==> controls_index is None)
            &&& (model.stage matches SessionStage::LocatingHostsInfo { controls_index, .. }
                ==> controls_index is None)
            &&& (model.stage matches SessionStage::Sampling { observation } ==> observation
                is Departure)
        }),
    decreases n,
{
    if n > 0 {
        announcement_session_stays_clear_of_controls(keyboard_index, replies, n - 1);
        mode_is_kept(
            keyboard_index,
            HostSwitchCaptureMode::ChangeHostAnnouncement,
            replies,
            n - 1,
        );
    }
}

/// A session that listens for announcements only never looks for, arms or
/// restores a control.
pub proof fn an_announcement_session_touches_no_control(
    keyboard_index: u8,
    replies: Seq<SessionReply>,
    n: int,
)
    requires
        0 <= n <= replies.len(),
    ensures
        ({
            let step = session_asks(
                keyboard_index,
                HostSwitchCaptureMode::ChangeHostAnnouncement,
                replies,
                n,
            );
            !(step is LocateControls) && !(step is Arm) && !(step is Restore)
        }),
{
    if n > 0 {
        announcement_session_stays_clear_of_controls(keyboard_index, replies, n - 1);
        mode_is_kept(
            keyboard_index,
            HostSwitchCaptureMode::ChangeHostAnnouncement,
            replies,
            n - 1,
        );
    }
}

/// Reply `i` answers the slot read that followed the announcement of a
/// departure for `host`, and proves `slot`.
pub open spec fn samples_departure(
    keyboard_index: u8,
    mode: HostSwitchCaptureMode,
    replies: Seq<SessionReply>,
    i: int,
    host: u8,
    slot: ReportedHostSlot,
) -> bool {
    &&& session_at(keyboard_index, mode, replies, i).stage == (SessionStage::Sampling {
        observation: Observation::Departure(host),
    })
    &&& (replies[i] matches SessionReply::SlotRead(read) && slot == slot_proved(host, read))
}

/// The request, where it is a departure, goes to a host that the keyboard has,
/// and its slot counts as unknown or was sampled by one of the first `n`
/// replies.
pub open spec fn is_sampled_departure(
    keyboard_index: u8,
    mode: HostSwitchCaptureMode,
    replies: Seq<SessionReply>,
    n: int,
    request: HostSwitchRequest,
) -> bool {
    match request.keyboard_transition {
        KeyboardHostTransition::AlreadyDeparting { host_slot } => {
            &&& request.host < EASY_SWITCH_HOST_COUNT
            &&& host_slot != ReportedHostSlot::Unknown ==> exists|i: int|
                0 <= i < n && #[trigger] samples_departure(
                    keyboard_index,
                    mode,
                    replies,
                    i,
                    request.host,
                    host_slot,
                )
        },
        _ => true,
    }
}

proof fn samples_stay(
    keyboard_index: u8,
    mode: HostSwitchCaptureMode,
    replies: Seq<SessionReply>,
    n: int,
    request: HostSwitchRequest,
)
    requires
        is_sampled_departure(keyboard_index, mode, replies, n, request),
    ensures
        is_sampled_departure(keyboard_index, mode, replies, n + 1, request),
{
}

proof fn departures_are_sampled(
    keyboard_index: u8,
    mode: HostSwitchCaptureMode,
    replies: Seq<SessionReply>,
    n: int,
)
    requires
        0 <= n <= replies.len(),
    ensures
        session_at(keyboard_index, mode, replies, n).stage matches SessionStage::Sampling {
            observation: Observation::Departure(host),
        } ==> host < EASY_SWITCH_HOST_COUNT,
        session_at(keyboard_index, mode, replies, n).stage matches SessionStage::Sampling {
            observation: Observation::Press(captured),
        } ==> !(captured.request.keyboard_transition is AlreadyDeparting),
        session_at(keyboard_index, mode, replies, n).stage matches SessionStage::Restoring {
            request: Some(request),
        } ==> is_sampled_departure(keyboard_index, mode, replies, n, request),
        session_asks(keyboard_index, mode, replies, n) matches SessionStep::Finish(
            Ok(Some(request)),
        ) ==> is_sampled_departure(keyboard_index, mode, replies, n, request),
    decreases n,
{
    if n > 0 {
        departures_are_sampled(keyboard_index, mode, replies, n - 1);
        let before = session_at(keyboard_index, mode, replies, n - 1);
        if let SessionStage::Restoring { request: Some(request) } = before.stage {
            samples_stay(keyboard_index, mode, replies, n - 1, request);
        } else if let SessionStage::Sampling { observation: Observation::Departure(host) } =
            before.stage {
            if let SessionReply::SlotRead(read) = replies[n - 1] {
                let slot = slot_proved(host, read);
                assert(samples_departure(keyboard_index, mode, replies, n - 1, host, slot));
                assert(is_sampled_departure(
                    keyboard_index,
                    mode,
                    replies,
                    n,
                    departure(host, slot),
                ));
            }
        }
    }
}

/// A departure that a session returns goes to a host that the keyboard has, and
/// its slot counts as empty or paired only where the keyboard said so in answer
/// to a read made after the announcement.
pub proof fn a_departure_is_sampled_at_the_event(
    keyboard_index: u8,
    mode: HostSwitchCaptureMode,
    replies: Seq<SessionReply>,
    n: int,
    request: HostSwitchRequest,
    slot: ReportedHostSlot,
)
    requires
        0 <= n <= replies.len(),
        session_asks(keyboard_index, mode, replies, n) == SessionStep::Finish(Ok(Some(request))),
        request.keyboard_transition == (KeyboardHostTransition::AlreadyDeparting {
            host_slot: slot,
        }),
    ensures
        request.host < EASY_SWITCH_HOST_COUNT,
        slot != ReportedHostSlot::Unknown ==> exists|i: int|
            0 <= i < n && #[trigger] samples_departure(
                keyboard_index,
                mode,
                replies,
                i,
                request.host,
                slot,
            ),
{
    departures_are_sampled(keyboard_index, mode, replies, n);
}

/// A listening session that is stopped captures nothing any more: it ends, at
/// once or as soon as its controls are put back.
pub proof fn a_stopped_session_ends(model: SessionModel, reason: Option<HostSwitchStopReason>)
    requires
        model.stage is Listening,
    ensures
        ({
            let (after, step) = model.after(SessionReply::Stopped(reason));
            ||| step == SessionStep::Finish(Ok(None))
            ||| step is Restore && after.after(SessionReply::Restored).1 == SessionStep::Finish(
                Ok(None),
            )
        }),
{
}

/// Once a session has ended it asks for nothing more.
pub proof fn an_ended_session_stays_ended(model: SessionModel, reply: SessionReply)
    requires
        model.stage is Finished,
    ensures
        model.after(reply) == (model, SessionStep::Ignore),
{
}

} // verus!
