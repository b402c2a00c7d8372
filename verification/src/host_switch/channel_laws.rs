//! Which channel a linked transition uses, what it demands of each slot, and how
//! it ends, told from the devices' answers.

use vstd::prelude::*;

use crate::host_switch::error::Fault;
use crate::host_switch::prepare::{HostSlotRequirement, PreparedHostChange};
use crate::host_switch::request::KeyboardHostTransition;
use crate::host_switch::slots::ReportedHostSlot;
use crate::host_switch::transition::{
    KeyboardPart, SwitchModel, SwitchReply, SwitchStage, SwitchStep,
};
use crate::host_switch::transition_laws::{
    a_transition_ends_as_its_devices_answer, asked, keyboard_writes, outcome, state_at,
    target_writes, LinkAnswers,
};
use crate::route::one_transport;

verus! {

/// One of the first `n` replies opened the keyboard's channel.
pub open spec fn keyboard_opened_within(
    m: SwitchModel,
    replies: Seq<SwitchReply>,
    n: int,
) -> bool {
    exists|j: int|
        0 <= j < n && (#[trigger] replies[j] matches SwitchReply::KeyboardOpened(Ok(Some(_))))
            && state_at(m, replies, j).stage is OpeningKeyboard
}

/// The transition asked for the channel of the follower at `index`, within its
/// first `n` replies.
pub open spec fn target_open_asked(
    m: SwitchModel,
    replies: Seq<SwitchReply>,
    n: int,
    index: usize,
) -> bool {
    exists|j: int| 0 <= j <= n && #[trigger] asked(m, replies, j) == (SwitchStep::OpenTarget { index })
}

/// The follower whose turn it is, counting the keyboard's own validation as the
/// turn before the first and its command as the turn after the last.
spec fn turn(m: SwitchModel) -> int {
    match m.stage {
        SwitchStage::OpeningKeyboard | SwitchStage::PreparingKeyboard => -1,
        SwitchStage::OpeningTarget { index, .. } => index as int,
        SwitchStage::PreparingTarget { index, .. } => index as int,
        SwitchStage::CommandingTarget { index, .. } => index as int,
        SwitchStage::CommandingKeyboard | SwitchStage::Finished => m.targets.len() as int,
    }
}

/// What the keyboard needs, where it is known already.
spec fn part(m: SwitchModel) -> Option<KeyboardPart> {
    match m.stage {
        SwitchStage::OpeningTarget { keyboard, .. } => Some(keyboard),
        SwitchStage::PreparingTarget { keyboard, .. } => Some(keyboard),
        SwitchStage::CommandingTarget { keyboard, .. } => Some(keyboard),
        _ => None,
    }
}

/// A step that follows a turn to the follower at `index`, or to the keyboard.
spec fn fits_the_turn(m: SwitchModel, from: int, now: SwitchModel, step: SwitchStep) -> bool {
    &&& turn(now) >= from
    &&& (step matches SwitchStep::OpenTarget { index } ==> index == turn(now) && index
        < m.targets.len() && (now.stage matches SwitchStage::OpeningTarget { index: at, keyboard }
        && at == index && (keyboard is Prepared ==> !one_transport(
        m.targets[index as int],
        m.keyboard,
    ))))
    &&& (step matches SwitchStep::PrepareTarget { index, on_keyboard_channel, .. } ==> index
        == turn(now) && index < m.targets.len() && (on_keyboard_channel ==> from < index
        && one_transport(m.targets[index as int], m.keyboard) && (part(now) matches Some(keyboard)
        && keyboard is Prepared)))
}

proof fn a_step_fits_its_turn(m: SwitchModel, reply: SwitchReply)
    requires
        m.well_formed(),
    ensures
        ({
            let (now, step) = m.after(reply);
            &&& now.well_formed()
            &&& now.keyboard == m.keyboard
            &&& now.targets == m.targets
            &&& now.transition == m.transition
            &&& fits_the_turn(m, turn(m), now, step)
            &&& (part(now) matches Some(keyboard) ==> part(m) == Some(keyboard) || (m.stage
                is PreparingKeyboard && keyboard is Prepared))
            &&& now.stage is OpeningKeyboard ==> m.stage is OpeningKeyboard
            &&& now.stage is PreparingKeyboard ==> m.stage is PreparingKeyboard || (m.stage
                is OpeningKeyboard && (reply matches SwitchReply::KeyboardOpened(Ok(Some(_)))))
            &&& (step matches SwitchStep::PrepareTarget { index, on_keyboard_channel, .. }
                ==> !on_keyboard_channel ==> reply == (SwitchReply::TargetOpened { open: true })
                && (m.stage matches SwitchStage::OpeningTarget { index: at, .. } && at == index))
            &&& (now.stage matches SwitchStage::OpeningTarget { index, .. } ==> m.stage == now.stage
                || step == (SwitchStep::OpenTarget { index }))
        }),
{
}

proof fn a_beginning_fits_its_turn(m: SwitchModel)
    requires
        m.targets.len() <= usize::MAX,
    ensures
        ({
            let (now, step) = m.begun();
            &&& now.well_formed()
            &&& now.keyboard == m.keyboard
            &&& now.targets == m.targets
            &&& now.transition == m.transition
            &&& fits_the_turn(m, -1, now, step)
            &&& !(step is PrepareTarget)
            &&& !(now.stage is PreparingKeyboard)
            &&& now.stage is OpeningKeyboard ==> !(m.transition is AlreadyDeparting)
            &&& (part(now) matches Some(keyboard) ==> keyboard is Departing && m.transition
                is AlreadyDeparting)
            &&& (now.stage matches SwitchStage::OpeningTarget { index, .. } ==> step == (
            SwitchStep::OpenTarget { index }))
        }),
{
}

proof fn a_run_keeps_its_identity(m: SwitchModel, replies: Seq<SwitchReply>, n: int)
    requires
        0 <= n <= replies.len(),
        m.targets.len() <= usize::MAX,
    ensures
        state_at(m, replies, n).well_formed(),
        state_at(m, replies, n).keyboard == m.keyboard,
        state_at(m, replies, n).targets == m.targets,
        state_at(m, replies, n).transition == m.transition,
    decreases n,
{
    if n > 0 {
        a_run_keeps_its_identity(m, replies, n - 1);
        a_step_fits_its_turn(state_at(m, replies, n - 1), replies[n - 1]);
    } else {
        a_beginning_fits_its_turn(m);
    }
}

proof fn a_prepared_keyboard_was_opened(m: SwitchModel, replies: Seq<SwitchReply>, n: int)
    requires
        0 <= n <= replies.len(),
        m.targets.len() <= usize::MAX,
    ensures
        state_at(m, replies, n).stage is OpeningKeyboard ==> !(m.transition is AlreadyDeparting),
        state_at(m, replies, n).stage is PreparingKeyboard || (part(state_at(m, replies, n)) matches
            Some(keyboard) && keyboard is Prepared) ==> keyboard_opened_within(m, replies, n)
            && !(m.transition is AlreadyDeparting),
        part(state_at(m, replies, n)) matches Some(keyboard) ==> (keyboard is Departing
            ==> m.transition is AlreadyDeparting),
    decreases n,
{
    if n > 0 {
        a_run_keeps_its_identity(m, replies, n - 1);
        a_prepared_keyboard_was_opened(m, replies, n - 1);
        a_step_fits_its_turn(state_at(m, replies, n - 1), replies[n - 1]);
        let now = state_at(m, replies, n);
        if keyboard_opened_within(m, replies, n - 1) {
            let j = choose|j: int|
                0 <= j < n - 1 && (#[trigger] replies[j] matches SwitchReply::KeyboardOpened(
                    Ok(Some(_)),
                )) && state_at(m, replies, j).stage is OpeningKeyboard;
            assert(replies[j] is KeyboardOpened);
            assert(keyboard_opened_within(m, replies, n));
        } else if now.stage is PreparingKeyboard {
            assert(replies[n - 1] is KeyboardOpened);
            assert(keyboard_opened_within(m, replies, n));
        }
    } else {
        a_beginning_fits_its_turn(m);
    }
}

proof fn channels_are_opened_in_turn(
    m: SwitchModel,
    replies: Seq<SwitchReply>,
    n: int,
    j: int,
)
    requires
        0 <= j <= n <= replies.len(),
        m.targets.len() <= usize::MAX,
    ensures
        turn(state_at(m, replies, j)) <= turn(state_at(m, replies, n)),
        asked(m, replies, j) matches SwitchStep::OpenTarget { index } ==> index <= turn(
            state_at(m, replies, n),
        ),
    decreases n - j,
{
    if j < n {
        channels_are_opened_in_turn(m, replies, n - 1, j);
        a_run_keeps_its_identity(m, replies, n - 1);
        a_step_fits_its_turn(state_at(m, replies, n - 1), replies[n - 1]);
    } else if n > 0 {
        a_run_keeps_its_identity(m, replies, n - 1);
        a_step_fits_its_turn(state_at(m, replies, n - 1), replies[n - 1]);
    } else {
        a_beginning_fits_its_turn(m);
    }
}

proof fn an_opening_was_asked_for(m: SwitchModel, replies: Seq<SwitchReply>, n: int)
    requires
        0 <= n <= replies.len(),
        m.targets.len() <= usize::MAX,
    ensures
        state_at(m, replies, n).stage matches SwitchStage::OpeningTarget { index, .. }
            ==> target_open_asked(m, replies, n, index),
    decreases n,
{
    if n > 0 {
        an_opening_was_asked_for(m, replies, n - 1);
        a_run_keeps_its_identity(m, replies, n - 1);
        a_step_fits_its_turn(state_at(m, replies, n - 1), replies[n - 1]);
    } else {
        a_beginning_fits_its_turn(m);
    }
    if let SwitchStage::OpeningTarget { index, .. } = state_at(m, replies, n).stage {
        if asked(m, replies, n) == (SwitchStep::OpenTarget { index }) {
            assert(target_open_asked(m, replies, n, index));
        } else {
            let j = choose|j: int|
                0 <= j <= n - 1 && #[trigger] asked(m, replies, j) == (SwitchStep::OpenTarget {
                    index,
                });
            assert(asked(m, replies, j) == (SwitchStep::OpenTarget { index }));
        }
    }
}

/// A follower is validated, and then commanded, through a channel that is open
/// for it. That is the keyboard's channel only where an earlier reply opened it
/// and both are on one receiver, so never after an announced departure. Any
/// other follower is validated directly after its own channel was opened. The
/// keyboard's channel is used exactly where the follower's own was not asked
/// for.
pub proof fn a_follower_is_reached_through_an_open_channel(
    m: SwitchModel,
    replies: Seq<SwitchReply>,
    n: int,
    index: usize,
    on_keyboard_channel: bool,
    device_index: u8,
    host: u8,
    requirement: HostSlotRequirement,
)
    requires
        0 <= n <= replies.len(),
        m.targets.len() <= usize::MAX,
        asked(m, replies, n) == (SwitchStep::PrepareTarget {
            index,
            on_keyboard_channel,
            device_index,
            host,
            requirement,
        }),
    ensures
        index < m.targets.len(),
        on_keyboard_channel ==> keyboard_opened_within(m, replies, n) && !(m.transition
            is AlreadyDeparting) && one_transport(m.targets[index as int], m.keyboard),
        !on_keyboard_channel ==> n > 0 && replies[n - 1] == (SwitchReply::TargetOpened {
            open: true,
        }) && (state_at(m, replies, n - 1).stage matches SwitchStage::OpeningTarget {
            index: at,
            ..
        } && at == index),
        on_keyboard_channel <==> !target_open_asked(m, replies, n, index),
{
    a_beginning_fits_its_turn(m);
    a_run_keeps_its_identity(m, replies, n - 1);
    a_step_fits_its_turn(state_at(m, replies, n - 1), replies[n - 1]);
    a_prepared_keyboard_was_opened(m, replies, n);
    an_opening_was_asked_for(m, replies, n - 1);
    if on_keyboard_channel {
        assert forall|j: int| 0 <= j <= n implies #[trigger] asked(m, replies, j) != (
        SwitchStep::OpenTarget { index }) by {
            if j < n {
                channels_are_opened_in_turn(m, replies, n - 1, j);
            }
        }
    } else {
        let j = choose|j: int|
            0 <= j <= n - 1 && #[trigger] asked(m, replies, j) == (SwitchStep::OpenTarget { index });
        assert(asked(m, replies, j) == (SwitchStep::OpenTarget { index }));
    }
}

/// A follower's own channel is opened only where the keyboard's cannot serve:
/// the keyboard is leaving, or the two are not on one receiver.
pub proof fn a_shared_channel_is_not_opened_twice(
    m: SwitchModel,
    replies: Seq<SwitchReply>,
    n: int,
    index: usize,
)
    requires
        0 <= n <= replies.len(),
        m.targets.len() <= usize::MAX,
        asked(m, replies, n) == (SwitchStep::OpenTarget { index }),
    ensures
        index < m.targets.len(),
        m.transition is AlreadyDeparting || !one_transport(m.targets[index as int], m.keyboard),
{
    a_beginning_fits_its_turn(m);
    a_prepared_keyboard_was_opened(m, replies, n);
    if n > 0 {
        a_run_keeps_its_identity(m, replies, n - 1);
        a_step_fits_its_turn(state_at(m, replies, n - 1), replies[n - 1]);
    }
}

/// Only a keyboard that may be leaving by itself must prove that its destination
/// is paired. Of a commanded keyboard and of every follower only a slot that is
/// reported empty is refused.
pub proof fn only_a_keyboard_that_may_be_leaving_must_prove_its_slot(
    m: SwitchModel,
    replies: Seq<SwitchReply>,
    n: int,
)
    requires
        0 <= n <= replies.len(),
        m.targets.len() <= usize::MAX,
    ensures
        match asked(m, replies, n) {
            SwitchStep::PrepareKeyboard { requirement, .. } => match m.transition {
                KeyboardHostTransition::CommandRequired => requirement
                    == HostSlotRequirement::Advisory,
                KeyboardHostTransition::AnalyticsEvent { .. } => requirement
                    == HostSlotRequirement::Paired,
                KeyboardHostTransition::AlreadyDeparting { .. } => false,
            },
            SwitchStep::PrepareTarget { requirement, .. } => requirement
                == HostSlotRequirement::Advisory,
            _ => true,
        },
{
    if n > 0 {
        a_run_keeps_its_identity(m, replies, n - 1);
        a_prepared_keyboard_was_opened(m, replies, n - 1);
    }
}

/// The fault that a keyboard meets when its channel is opened and its move
/// validated, if it meets one.
pub open spec fn keyboard_fault(answers: LinkAnswers) -> Option<Fault> {
    match answers.keyboard.opened {
        Err(fault) => Some(fault),
        Ok(None) => Some(Fault::KeyboardNotFound),
        Ok(Some(_)) => match answers.keyboard.prepared {
            Err(fault) => Some(fault),
            Ok(_) => None,
        },
    }
}

/// A keyboard that refuses, or cannot be reached, stops the transition before
/// anything moves. A commanded transition, or one whose keyboard answers with a
/// refusal, ends with the fault that was met. Where a keyboard that may be
/// leaving by itself cannot be reached any more, nothing proves its destination:
/// the transition ends with an empty slot where the event reported it empty, and
/// with an unverified one otherwise.
pub proof fn a_keyboard_that_fails_moves_nothing(
    m: SwitchModel,
    answers: LinkAnswers,
    fault: Fault,
    index: int,
)
    requires
        m.targets.len() <= usize::MAX,
        !(m.transition is AlreadyDeparting),
        keyboard_fault(answers) == Some(fault),
    ensures
        keyboard_writes(m, answers).len() == 0,
        target_writes(m, answers, index).len() == 0,
        outcome(m, answers) == SwitchStep::Finish(
            Err(
                match m.transition {
                    KeyboardHostTransition::AnalyticsEvent { host_slot } => if fault
                        == Fault::Disconnected || fault == Fault::KeyboardNotFound || fault
                        == Fault::DeviceNotFound {
                        if host_slot == ReportedHostSlot::Empty {
                            Fault::HostSlotEmpty(m.host)
                        } else {
                            Fault::HostSlotUnverified(m.host)
                        }
                    } else {
                        fault
                    },
                    _ => fault,
                },
            ),
        ),
{
    a_transition_ends_as_its_devices_answer(m, answers, index);
}

/// Where the keyboard's own move is validated, every follower that can be
/// reached and needs to move is commanded once, as validated, and no other is.
/// The keyboard is commanded once if it needs to move at all. The transition
/// then reports whether the keyboard was commanded, or why that failed.
pub proof fn a_validated_transition_moves_what_can_move(
    m: SwitchModel,
    answers: LinkAnswers,
    keyboard: PreparedHostChange,
    index: int,
)
    requires
        m.targets.len() <= usize::MAX,
        answers.targets.len() == m.targets.len(),
        !(m.transition is AlreadyDeparting),
        answers.keyboard.opened matches Ok(opened) && opened is Some,
        answers.keyboard.prepared == Ok::<PreparedHostChange, Fault>(keyboard),
        0 <= index < m.targets.len(),
    ensures
        ({
            let reachable = answers.targets[index].open || one_transport(
                m.targets[index],
                m.keyboard,
            );
            target_writes(m, answers, index) == match answers.targets[index].prepared {
                Ok(change) if reachable && change.required => seq![change],
                _ => Seq::empty(),
            }
        }),
        keyboard_writes(m, answers) == if keyboard.required {
            seq![keyboard]
        } else {
            Seq::empty()
        },
        outcome(m, answers) == SwitchStep::Finish(
            if !keyboard.required {
                Ok(false)
            } else {
                match answers.keyboard.written {
                    Ok(_) => Ok(true),
                    Err(fault) => Err(fault),
                }
            },
        ),
{
    a_transition_ends_as_its_devices_answer(m, answers, index);
}

/// After an announced departure to a slot that was not reported empty, every
/// follower whose own channel opens and that needs to move is commanded once,
/// and no other is. The keyboard is left alone, and the transition reports that
/// it left. Where the slot was reported empty, nothing moves.
pub proof fn an_announced_departure_moves_the_followers(
    m: SwitchModel,
    answers: LinkAnswers,
    slot: ReportedHostSlot,
    index: int,
)
    requires
        m.targets.len() <= usize::MAX,
        answers.targets.len() == m.targets.len(),
        m.transition == (KeyboardHostTransition::AlreadyDeparting { host_slot: slot }),
        0 <= index < m.targets.len(),
    ensures
        keyboard_writes(m, answers).len() == 0,
        slot == ReportedHostSlot::Empty ==> target_writes(m, answers, index).len() == 0 && outcome(
            m,
            answers,
        ) == SwitchStep::Finish(Err(Fault::HostSlotEmpty(m.host))),
        slot != ReportedHostSlot::Empty ==> {
            &&& outcome(m, answers) == SwitchStep::Finish(Ok(true))
            &&& target_writes(m, answers, index) == match answers.targets[index].prepared {
                Ok(change) if answers.targets[index].open && change.required => seq![change],
                _ => Seq::empty(),
            }
        },
{
    a_transition_ends_as_its_devices_answer(m, answers, index);
}

} // verus!
