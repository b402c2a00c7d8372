//! What holds of every linked transition, whatever its devices answer.
//!
//! A transition is followed over a sequence of replies: `asked(m, replies, n)`
//! is what it asks for after the first `n` of them.

use vstd::prelude::*;

use crate::host_switch::error::{departed, Fault};
use crate::host_switch::prepare::{
    preparation, DeviceAnswers, HostPreparation, HostSlotRequirement, PreparedHostChange,
};
use crate::host_switch::request::KeyboardHostTransition;
use crate::host_switch::slots::ReportedHostSlot;
use crate::host_switch::transition::{
    event_slot, keyboard_requirement, unreachable_fault, KeyboardPart, SwitchModel, SwitchReply,
    SwitchStage, SwitchStep,
};
use crate::route::{one_transport, route_index, RouteView};

verus! {

/// The transition after the first `n` replies.
pub open spec fn state_at(m: SwitchModel, replies: Seq<SwitchReply>, n: int) -> SwitchModel
    decreases n,
{
    if n <= 0 {
        m.begun().0
    } else {
        state_at(m, replies, n - 1).after(replies[n - 1]).0
    }
}

/// What the transition asks for after the first `n` replies.
pub open spec fn asked(m: SwitchModel, replies: Seq<SwitchReply>, n: int) -> SwitchStep {
    if n <= 0 {
        m.begun().1
    } else {
        state_at(m, replies, n - 1).after(replies[n - 1]).1
    }
}

/// The keyboard's own move was validated by reply `n`.
pub open spec fn validates(m: SwitchModel, replies: Seq<SwitchReply>, n: int) -> bool {
    &&& state_at(m, replies, n).stage == SwitchStage::PreparingKeyboard
    &&& replies[n] matches SwitchReply::Prepared(Ok(_))
}

/// The keyboard's own move was validated by one of the first `n` replies.
pub open spec fn validated_within(m: SwitchModel, replies: Seq<SwitchReply>, n: int) -> bool {
    exists|j: int| 0 <= j < n && #[trigger] validates(m, replies, j)
}

/// An operation on a follower.
pub open spec fn touches_target(step: SwitchStep) -> bool {
    step is OpenTarget || step is PrepareTarget || step is CommandTarget
}

/// An operation on the keyboard.
pub open spec fn touches_keyboard(step: SwitchStep) -> bool {
    step is OpenKeyboard || step is PrepareKeyboard || step is CommandKeyboard
}

/// An operation that begins the turn of the follower at `index`.
pub open spec fn addresses(step: SwitchStep, index: int) -> bool {
    match step {
        SwitchStep::OpenTarget { index: at } => at == index,
        SwitchStep::PrepareTarget { index: at, .. } => at == index,
        _ => false,
    }
}

/// The turn of the follower at `index` began within the first `n` replies.
pub open spec fn addressed_within(
    m: SwitchModel,
    replies: Seq<SwitchReply>,
    n: int,
    index: int,
) -> bool {
    exists|j: int| 0 <= j <= n && addresses(#[trigger] asked(m, replies, j), index)
}

proof fn identity_is_kept(m: SwitchModel, replies: Seq<SwitchReply>, n: int)
    requires
        0 <= n <= replies.len(),
    ensures
        state_at(m, replies, n).keyboard == m.keyboard,
        state_at(m, replies, n).targets == m.targets,
        state_at(m, replies, n).host == m.host,
        state_at(m, replies, n).transition == m.transition,
    decreases n,
{
    if n > 0 {
        identity_is_kept(m, replies, n - 1);
    }
}

proof fn later_stages_are_validated(m: SwitchModel, replies: Seq<SwitchReply>, n: int)
    requires
        0 <= n <= replies.len(),
        !(m.transition is AlreadyDeparting),
    ensures
        match state_at(m, replies, n).stage {
            SwitchStage::OpeningTarget { keyboard, .. } => keyboard is Prepared
                && validated_within(m, replies, n),
            SwitchStage::PreparingTarget { keyboard, .. } => keyboard is Prepared
                && validated_within(m, replies, n),
            SwitchStage::CommandingTarget { keyboard, .. } => keyboard is Prepared
                && validated_within(m, replies, n),
            SwitchStage::CommandingKeyboard => validated_within(m, replies, n),
            _ => true,
        },
        touches_target(asked(m, replies, n)) || asked(m, replies, n) is CommandKeyboard
            ==> validated_within(m, replies, n),
        n > 0 ==> (asked(m, replies, n) matches SwitchStep::Finish(Ok(_))) ==> validated_within(
            m,
            replies,
            n,
        ),
    decreases n,
{
    if n > 0 {
        later_stages_are_validated(m, replies, n - 1);
        if validated_within(m, replies, n - 1) {
            let j = choose|j: int| 0 <= j < n - 1 && #[trigger] validates(m, replies, j);
            assert(validates(m, replies, j));
        }
        if validates(m, replies, n - 1) {
            assert(validated_within(m, replies, n));
        }
    }
}

/// Unless the keyboard announced that it is leaving, no follower is opened,
/// asked or moved, and the keyboard is not commanded, before the keyboard's
/// own move was validated; and no such transition succeeds without it.
pub proof fn nothing_moves_before_the_keyboard_is_validated(
    m: SwitchModel,
    replies: Seq<SwitchReply>,
    n: int,
)
    requires
        0 <= n <= replies.len(),
        !(m.transition is AlreadyDeparting),
        touches_target(asked(m, replies, n)) || asked(m, replies, n) is CommandKeyboard || (asked(
            m,
            replies,
            n,
        ) matches SwitchStep::Finish(Ok(_))),
    ensures
        validated_within(m, replies, n),
{
    later_stages_are_validated(m, replies, n);
}

/// A follower is commanded only in answer to its own validation, and only where
/// that found a change to be required.
pub proof fn a_target_is_commanded_only_as_validated(
    m: SwitchModel,
    replies: Seq<SwitchReply>,
    n: int,
    index: usize,
    change: PreparedHostChange,
)
    requires
        0 <= n <= replies.len(),
        asked(m, replies, n) == (SwitchStep::CommandTarget { index, change }),
    ensures
        n > 0,
        replies[n - 1] == SwitchReply::Prepared(Ok(change)),
        change.required,
        state_at(m, replies, n - 1).stage matches SwitchStage::PreparingTarget { index: at, .. }
            && at == index,
{
}

/// The result is one that some device's answers bring this validation to.
pub open spec fn results_from(
    result: Result<PreparedHostChange, Fault>,
    validation: HostPreparation,
) -> bool {
    exists|device: DeviceAnswers|
        result == #[trigger] device.validated(
            validation.device_index,
            validation.host,
            validation.requirement,
        )
}

/// Reply `n`, where it ends a validation, ends the one that was waited for.
pub open spec fn answers_the_validation(
    m: SwitchModel,
    replies: Seq<SwitchReply>,
    n: int,
) -> bool {
    match (state_at(m, replies, n).validation(), replies[n]) {
        (Some(validation), SwitchReply::Prepared(result)) => results_from(result, validation),
        _ => true,
    }
}

/// Each of the first `n` replies that ends a validation ends the one that was
/// waited for.
pub open spec fn validations_are_answered(
    m: SwitchModel,
    replies: Seq<SwitchReply>,
    n: int,
) -> bool {
    forall|j: int| 0 <= j < n ==> #[trigger] answers_the_validation(m, replies, j)
}

/// A validation is asked for with the index of the device it is about and the
/// destination of the transition, and is then the one that is waited for.
pub proof fn a_validation_is_asked_of_its_device(
    m: SwitchModel,
    replies: Seq<SwitchReply>,
    n: int,
)
    requires
        0 <= n <= replies.len(),
        m.targets.len() <= usize::MAX,
    ensures
        match asked(m, replies, n) {
            SwitchStep::PrepareKeyboard { device_index, host, requirement } => {
                &&& device_index == route_index(m.keyboard)
                &&& host == m.host
                &&& requirement == keyboard_requirement(m.transition)
                &&& state_at(m, replies, n).validation() == Some(
                    preparation(device_index, host, requirement),
                )
            },
            SwitchStep::PrepareTarget { index, device_index, host, requirement, .. } => {
                &&& index < m.targets.len()
                &&& device_index == route_index(m.targets[index as int])
                &&& host == m.host
                &&& requirement == HostSlotRequirement::Advisory
                &&& state_at(m, replies, n).validation() == Some(
                    preparation(device_index, host, requirement),
                )
            },
            _ => true,
        },
{
    stages_stay_in_the_list(m, replies, n);
    identity_is_kept(m, replies, n);
    if n > 0 {
        stages_stay_in_the_list(m, replies, n - 1);
        identity_is_kept(m, replies, n - 1);
    }
}

proof fn stages_stay_in_the_list(m: SwitchModel, replies: Seq<SwitchReply>, n: int)
    requires
        0 <= n <= replies.len(),
        m.targets.len() <= usize::MAX,
    ensures
        state_at(m, replies, n).well_formed(),
    decreases n,
{
    if n > 0 {
        stages_stay_in_the_list(m, replies, n - 1);
    }
}

/// The keyboard's part of a transition, where it is a move, was validated.
spec fn keyboard_part_is_sound(m: SwitchModel, keyboard: KeyboardPart) -> bool {
    match keyboard {
        KeyboardPart::Departing => true,
        KeyboardPart::Prepared(change) => results_from(
            Ok(change),
            preparation(
                route_index(m.keyboard),
                m.host,
                keyboard_requirement(m.transition),
            ),
        ),
    }
}

proof fn prepared_keyboards_are_sound(m: SwitchModel, replies: Seq<SwitchReply>, n: int)
    requires
        0 <= n <= replies.len(),
        validations_are_answered(m, replies, n),
    ensures
        match state_at(m, replies, n).stage {
            SwitchStage::OpeningTarget { keyboard, .. } => keyboard_part_is_sound(m, keyboard),
            SwitchStage::PreparingTarget { keyboard, .. } => keyboard_part_is_sound(m, keyboard),
            SwitchStage::CommandingTarget { keyboard, .. } => keyboard_part_is_sound(m, keyboard),
            _ => true,
        },
        asked(m, replies, n) matches SwitchStep::CommandKeyboard { change }
            ==> keyboard_part_is_sound(m, KeyboardPart::Prepared(change)),
    decreases n,
{
    if n > 0 {
        prepared_keyboards_are_sound(m, replies, n - 1);
        identity_is_kept(m, replies, n - 1);
        assert(answers_the_validation(m, replies, n - 1));
    }
}

/// Where validations end as the devices they are about answer, a follower is
/// commanded at its own index and to the destination of the transition, and
/// only with a move that its answers allow.
pub proof fn a_target_is_commanded_to_the_destination(
    m: SwitchModel,
    replies: Seq<SwitchReply>,
    n: int,
    index: usize,
    change: PreparedHostChange,
)
    requires
        0 <= n <= replies.len(),
        m.targets.len() <= usize::MAX,
        validations_are_answered(m, replies, n),
        asked(m, replies, n) == (SwitchStep::CommandTarget { index, change }),
    ensures
        index < m.targets.len(),
        change.host == m.host,
        change.device_index == route_index(m.targets[index as int]),
        change.required,
        results_from(
            Ok(change),
            preparation(
                route_index(m.targets[index as int]),
                m.host,
                HostSlotRequirement::Advisory,
            ),
        ),
{
    a_target_is_commanded_only_as_validated(m, replies, n, index, change);
    stages_stay_in_the_list(m, replies, n - 1);
    identity_is_kept(m, replies, n - 1);
    assert(answers_the_validation(m, replies, n - 1));
}

/// Where validations end as the devices they are about answer, the keyboard is
/// commanded at its own index and to the destination of the transition, and
/// only with a move that its answers allow.
pub proof fn the_keyboard_is_commanded_to_the_destination(
    m: SwitchModel,
    replies: Seq<SwitchReply>,
    n: int,
    change: PreparedHostChange,
)
    requires
        0 <= n <= replies.len(),
        validations_are_answered(m, replies, n),
        asked(m, replies, n) == (SwitchStep::CommandKeyboard { change }),
    ensures
        change.host == m.host,
        change.device_index == route_index(m.keyboard),
        change.required,
        results_from(
            Ok(change),
            preparation(
                route_index(m.keyboard),
                m.host,
                keyboard_requirement(m.transition),
            ),
        ),
{
    prepared_keyboards_are_sound(m, replies, n);
}

/// A transition that ended asks for nothing more.
pub proof fn a_finished_transition_stays_finished(
    m: SwitchModel,
    replies: Seq<SwitchReply>,
    n: int,
    later: int,
)
    requires
        0 <= n < later <= replies.len(),
        asked(m, replies, n) is Finish,
    ensures
        asked(m, replies, later) is Ignore,
    decreases later - n,
{
    finished_after_finish(m, replies, n);
    stays_finished(m, replies, n, later - 1);
}

proof fn finished_after_finish(m: SwitchModel, replies: Seq<SwitchReply>, n: int)
    requires
        0 <= n <= replies.len(),
        asked(m, replies, n) is Finish,
    ensures
        state_at(m, replies, n).stage is Finished,
{
}

proof fn stays_finished(m: SwitchModel, replies: Seq<SwitchReply>, n: int, later: int)
    requires
        0 <= n <= later <= replies.len(),
        state_at(m, replies, n).stage is Finished,
    ensures
        state_at(m, replies, later).stage is Finished,
    decreases later - n,
{
    if n < later {
        stays_finished(m, replies, n, later - 1);
    }
}

/// Once the keyboard is commanded nothing else is: it is the last device to
/// move, because its channel goes with it.
pub proof fn the_keyboard_moves_last(
    m: SwitchModel,
    replies: Seq<SwitchReply>,
    n: int,
    later: int,
)
    requires
        0 <= n < later <= replies.len(),
        asked(m, replies, n) is CommandKeyboard,
    ensures
        asked(m, replies, later) is Finish || asked(m, replies, later) is Ignore,
{
    assert(state_at(m, replies, n).stage is CommandingKeyboard);
    commanding_leads_to_the_end(m, replies, n, later - 1);
}

proof fn commanding_leads_to_the_end(
    m: SwitchModel,
    replies: Seq<SwitchReply>,
    n: int,
    later: int,
)
    requires
        0 <= n <= later <= replies.len(),
        state_at(m, replies, n).stage is CommandingKeyboard,
    ensures
        state_at(m, replies, later).stage is CommandingKeyboard || state_at(
            m,
            replies,
            later,
        ).stage is Finished,
    decreases later - n,
{
    if n < later {
        commanding_leads_to_the_end(m, replies, n, later - 1);
    }
}

proof fn departing_stages(m: SwitchModel, replies: Seq<SwitchReply>, n: int)
    requires
        0 <= n <= replies.len(),
        m.transition is AlreadyDeparting,
    ensures
        match state_at(m, replies, n).stage {
            SwitchStage::OpeningTarget { keyboard, .. } => keyboard is Departing,
            SwitchStage::PreparingTarget { keyboard, .. } => keyboard is Departing,
            SwitchStage::CommandingTarget { keyboard, .. } => keyboard is Departing,
            SwitchStage::Finished => true,
            _ => false,
        },
    decreases n,
{
    if n > 0 {
        departing_stages(m, replies, n - 1);
    }
}

/// A keyboard that announced its departure is never opened, asked or commanded
/// again, and the transition reports that it left.
pub proof fn a_departing_keyboard_is_left_alone(
    m: SwitchModel,
    replies: Seq<SwitchReply>,
    n: int,
)
    requires
        0 <= n <= replies.len(),
        m.transition is AlreadyDeparting,
    ensures
        !touches_keyboard(asked(m, replies, n)),
        m.transition->AlreadyDeparting_host_slot != ReportedHostSlot::Empty ==> (asked(
            m,
            replies,
            n,
        ) matches SwitchStep::Finish(result) ==> result == Ok::<bool, Fault>(true)),
{
    if n > 0 {
        departing_stages(m, replies, n - 1);
    }
}

/// An announced departure to a slot that was reported empty is refused at once:
/// nothing is ever asked of any device.
pub proof fn an_announced_empty_slot_moves_nothing(
    m: SwitchModel,
    replies: Seq<SwitchReply>,
    n: int,
)
    requires
        0 <= n <= replies.len(),
        m.transition == (KeyboardHostTransition::AlreadyDeparting {
            host_slot: ReportedHostSlot::Empty,
        }),
    ensures
        n == 0 ==> asked(m, replies, n) == SwitchStep::Finish(Err(Fault::HostSlotEmpty(m.host))),
        n > 0 ==> asked(m, replies, n) is Ignore,
{
    if n > 0 {
        a_finished_transition_stays_finished(m, replies, 0, n);
    }
}

proof fn addressed_later(m: SwitchModel, replies: Seq<SwitchReply>, n: int, index: int)
    requires
        addressed_within(m, replies, n, index),
    ensures
        addressed_within(m, replies, n + 1, index),
{
    let j = choose|j: int| 0 <= j <= n && addresses(#[trigger] asked(m, replies, j), index);
    assert(addresses(asked(m, replies, j), index));
}

/// Every follower up to `count` had its turn.
spec fn addressed_below(m: SwitchModel, replies: Seq<SwitchReply>, n: int, count: int) -> bool {
    forall|index: int| 0 <= index < count ==> addressed_within(m, replies, n, index)
}

proof fn turns_are_taken(m: SwitchModel, replies: Seq<SwitchReply>, n: int)
    requires
        0 <= n <= replies.len(),
        m.targets.len() <= usize::MAX,
        !(m.transition is AlreadyDeparting && m.transition->AlreadyDeparting_host_slot
            == ReportedHostSlot::Empty),
    ensures
        match state_at(m, replies, n).stage {
            SwitchStage::OpeningTarget { index, .. } => index < m.targets.len()
                && addressed_below(m, replies, n, index + 1),
            SwitchStage::PreparingTarget { index, .. } => index < m.targets.len()
                && addressed_below(m, replies, n, index + 1),
            SwitchStage::CommandingTarget { index, .. } => index < m.targets.len()
                && addressed_below(m, replies, n, index + 1),
            SwitchStage::CommandingKeyboard => addressed_below(
                m,
                replies,
                n,
                m.targets.len() as int,
            ),
            _ => true,
        },
        (asked(m, replies, n) matches SwitchStep::Finish(Ok(_))) ==> addressed_below(
            m,
            replies,
            n,
            m.targets.len() as int,
        ),
    decreases n,
{
    let here = asked(m, replies, n);
    if n > 0 {
        turns_are_taken(m, replies, n - 1);
        identity_is_kept(m, replies, n - 1);
        assert forall|index: int| addressed_within(m, replies, n - 1, index) implies
            #[trigger] addressed_within(m, replies, n, index) by {
            addressed_later(m, replies, n - 1, index);
        }
    }
    assert forall|index: int| addresses(here, index) implies #[trigger] addressed_within(
        m,
        replies,
        n,
        index,
    ) by {
        assert(addresses(asked(m, replies, n), index));
    }
}

/// A transition that moves the keyboard, or succeeds at all, gave every
/// follower its turn first, whatever became of the others.
pub proof fn every_target_gets_its_turn(
    m: SwitchModel,
    replies: Seq<SwitchReply>,
    n: int,
    index: int,
)
    requires
        0 <= n <= replies.len(),
        0 <= index < m.targets.len() <= usize::MAX,
        asked(m, replies, n) is CommandKeyboard || (asked(m, replies, n) matches SwitchStep::Finish(
            Ok(_),
        )),
    ensures
        addressed_within(m, replies, n, index),
{
    if m.transition is AlreadyDeparting && m.transition->AlreadyDeparting_host_slot
        == ReportedHostSlot::Empty {
        an_announced_empty_slot_moves_nothing(m, replies, n);
    } else {
        turns_are_taken(m, replies, n);
    }
}

/// How many more answers a transition can take.
pub open spec fn remaining(m: SwitchModel) -> int {
    let count = m.targets.len() as int;
    let turns = |index: usize| 3 * (count - index);
    match m.stage {
        SwitchStage::OpeningKeyboard => 3 * count + 3,
        SwitchStage::PreparingKeyboard => 3 * count + 2,
        SwitchStage::OpeningTarget { index, .. } => turns(index) + 1,
        SwitchStage::PreparingTarget { index, .. } => turns(index),
        SwitchStage::CommandingTarget { index, .. } => turns(index) - 1,
        SwitchStage::CommandingKeyboard => 1,
        SwitchStage::Finished => 0,
    }
}

/// Every answer that is not ignored brings a transition closer to its end, and
/// the end is reached only with a result.
pub proof fn every_answer_makes_progress(m: SwitchModel, reply: SwitchReply)
    requires
        m.well_formed(),
    ensures
        m.after(reply).1 is Ignore ==> m.after(reply).0 == m,
        !(m.after(reply).1 is Ignore) ==> 0 <= remaining(m.after(reply).0) < remaining(m),
        m.after(reply).0.well_formed(),
        m.after(reply).1 is Finish <==> !(m.stage is Finished) && m.after(
            reply,
        ).0.stage is Finished,
{
}

/// What a keyboard gives back to each operation of a transition.
pub struct KeyboardAnswers {
    /// Opening its channel.
    pub opened: Result<Option<()>, Fault>,
    /// Validating its move.
    pub prepared: Result<PreparedHostChange, Fault>,
    /// Commanding it.
    pub written: Result<(), Fault>,
}

/// What a follower gives back to each operation of a transition.
pub struct TargetAnswers {
    /// Whether its own channel can be opened.
    pub open: bool,
    /// Validating its move.
    pub prepared: Result<PreparedHostChange, Fault>,
    /// Commanding it.
    pub written: Result<(), Fault>,
}

/// What all devices of a transition give back.
pub struct LinkAnswers {
    /// The keyboard.
    pub keyboard: KeyboardAnswers,
    /// The followers, in the order they are moved.
    pub targets: Seq<TargetAnswers>,
}

impl LinkAnswers {
    /// The devices' answer to one operation.
    pub open spec fn reply_to(self, step: SwitchStep) -> SwitchReply {
        match step {
            SwitchStep::OpenKeyboard => SwitchReply::KeyboardOpened(self.keyboard.opened),
            SwitchStep::PrepareKeyboard { .. } => SwitchReply::Prepared(self.keyboard.prepared),
            SwitchStep::OpenTarget { index } => SwitchReply::TargetOpened {
                open: self.targets[index as int].open,
            },
            SwitchStep::PrepareTarget { index, .. } => SwitchReply::Prepared(
                self.targets[index as int].prepared,
            ),
            SwitchStep::CommandTarget { index, .. } => SwitchReply::Commanded(
                self.targets[index as int].written,
            ),
            _ => SwitchReply::Commanded(self.keyboard.written),
        }
    }
}

/// The step that a transition comes to when its devices answer up to `rounds`
/// more operations.
pub open spec fn reached(
    at: SwitchModel,
    step: SwitchStep,
    answers: LinkAnswers,
    rounds: nat,
) -> SwitchStep
    decreases rounds,
{
    if rounds == 0 || step is Finish {
        step
    } else {
        let next = at.after(answers.reply_to(step));
        reached(next.0, next.1, answers, (rounds - 1) as nat)
    }
}

/// The moves that a step commands the follower at `index` to make.
pub open spec fn target_move(step: SwitchStep, index: int) -> Seq<PreparedHostChange> {
    match step {
        SwitchStep::CommandTarget { index: at, change } if at == index => seq![change],
        _ => Seq::empty(),
    }
}

/// The moves that a step commands the keyboard to make.
pub open spec fn keyboard_move(step: SwitchStep) -> Seq<PreparedHostChange> {
    match step {
        SwitchStep::CommandKeyboard { change } => seq![change],
        _ => Seq::empty(),
    }
}

/// The moves that the follower at `index` is commanded to make within `rounds`
/// more operations.
pub open spec fn target_moves(
    at: SwitchModel,
    step: SwitchStep,
    answers: LinkAnswers,
    rounds: nat,
    index: int,
) -> Seq<PreparedHostChange>
    decreases rounds,
{
    if rounds == 0 || step is Finish {
        Seq::empty()
    } else {
        let next = at.after(answers.reply_to(step));
        target_move(step, index) + target_moves(
            next.0,
            next.1,
            answers,
            (rounds - 1) as nat,
            index,
        )
    }
}

/// The moves that the keyboard is commanded to make within `rounds` more
/// operations.
pub open spec fn keyboard_moves(
    at: SwitchModel,
    step: SwitchStep,
    answers: LinkAnswers,
    rounds: nat,
) -> Seq<PreparedHostChange>
    decreases rounds,
{
    if rounds == 0 || step is Finish {
        Seq::empty()
    } else {
        let next = at.after(answers.reply_to(step));
        keyboard_move(step) + keyboard_moves(next.0, next.1, answers, (rounds - 1) as nat)
    }
}

/// More operations than any transition with so many followers asks for.
pub open spec fn ample(count: nat) -> nat {
    3 * count + 4
}

/// What a transition ends with, once its devices have answered everything.
pub open spec fn outcome(m: SwitchModel, answers: LinkAnswers) -> SwitchStep {
    reached(m.begun().0, m.begun().1, answers, ample(m.targets.len()))
}

/// The moves that a transition commands the follower at `index` to make.
pub open spec fn target_writes(m: SwitchModel, answers: LinkAnswers, index: int) -> Seq<
    PreparedHostChange,
> {
    target_moves(m.begun().0, m.begun().1, answers, ample(m.targets.len()), index)
}

/// The moves that a transition commands the keyboard to make.
pub open spec fn keyboard_writes(m: SwitchModel, answers: LinkAnswers) -> Seq<PreparedHostChange> {
    keyboard_moves(m.begun().0, m.begun().1, answers, ample(m.targets.len()))
}

/// The moves that a follower's own answers call for.
pub open spec fn own_moves(
    target: RouteView,
    answers: TargetAnswers,
    keyboard: RouteView,
    part: KeyboardPart,
) -> Seq<PreparedHostChange> {
    if answers.open || part is Prepared && one_transport(target, keyboard) {
        match answers.prepared {
            Ok(change) if change.required => seq![change],
            _ => Seq::empty(),
        }
    } else {
        Seq::empty()
    }
}

/// What a transition ends with after its followers had their turns.
pub open spec fn end_of_turns(part: KeyboardPart, written: Result<(), Fault>) -> SwitchStep {
    match part {
        KeyboardPart::Departing => SwitchStep::Finish(Ok(true)),
        KeyboardPart::Prepared(change) => if change.required {
            match written {
                Ok(_) => SwitchStep::Finish(Ok(true)),
                Err(fault) => SwitchStep::Finish(Err(fault)),
            }
        } else {
            SwitchStep::Finish(Ok(false))
        },
    }
}

/// The moves of the keyboard after its followers had their turns.
pub open spec fn moves_after_turns(part: KeyboardPart) -> Seq<PreparedHostChange> {
    match part {
        KeyboardPart::Prepared(change) if change.required => seq![change],
        _ => Seq::empty(),
    }
}

proof fn turns_are_run(
    m: SwitchModel,
    answers: LinkAnswers,
    turn: int,
    part: KeyboardPart,
    rounds: nat,
    index: int,
)
    requires
        m.targets.len() <= usize::MAX,
        0 <= turn <= m.targets.len(),
        rounds >= 3 * (m.targets.len() - turn) + 2,
    ensures
        ({
            let (at, step) = m.turn_to(turn, part);
            &&& reached(at, step, answers, rounds) == end_of_turns(part, answers.keyboard.written)
            &&& keyboard_moves(at, step, answers, rounds) == moves_after_turns(part)
            &&& target_moves(at, step, answers, rounds, index) == (if turn <= index
                < m.targets.len() {
                own_moves(m.targets[index], answers.targets[index], m.keyboard, part)
            } else {
                Seq::empty()
            })
        }),
    decreases m.targets.len() - turn,
{
    reveal_with_fuel(reached, 4);
    reveal_with_fuel(keyboard_moves, 4);
    reveal_with_fuel(target_moves, 4);
    let (at, step) = m.turn_to(turn, part);
    if turn < m.targets.len() {
        let own = answers.targets[turn];
        let shared = part is Prepared && one_transport(m.targets[turn], m.keyboard);
        // How many operations the turn takes.
        let taken: nat = (if shared {
            0nat
        } else {
            1nat
        }) + (if shared || own.open {
            1nat
        } else {
            0nat
        }) + own_moves(m.targets[turn], own, m.keyboard, part).len();
        let next = m.turn_to(turn + 1, part);
        turns_are_run(m, answers, turn + 1, part, (rounds - taken) as nat, index);
        turning_forgets_the_stage(m, turn + 1, part);
        assert(reached(at, step, answers, rounds) == reached(
            next.0,
            next.1,
            answers,
            (rounds - taken) as nat,
        ));
        assert(keyboard_moves(at, step, answers, rounds) =~= keyboard_moves(
            next.0,
            next.1,
            answers,
            (rounds - taken) as nat,
        ));
        assert(target_moves(at, step, answers, rounds, index) =~= (if index == turn {
            own_moves(m.targets[turn], own, m.keyboard, part)
        } else {
            Seq::empty()
        }) + target_moves(next.0, next.1, answers, (rounds - taken) as nat, index));
    }
    assert(keyboard_moves(at, step, answers, rounds) =~= moves_after_turns(part));
    assert(target_moves(at, step, answers, rounds, index) =~= (if turn <= index < m.targets.len() {
        own_moves(m.targets[index], answers.targets[index], m.keyboard, part)
    } else {
        Seq::empty()
    }));
}

proof fn turning_forgets_the_stage(m: SwitchModel, turn: int, part: KeyboardPart)
    ensures
        forall|stage: SwitchStage| #[trigger] m.at(stage).turn_to(turn, part) == m.turn_to(
            turn,
            part,
        ),
{
}

/// The fault that a transition ends with when its keyboard meets `fault`.
pub open spec fn refusal(m: SwitchModel, fault: Fault) -> Fault {
    if departed(fault) {
        unreachable_fault(event_slot(m.transition), m.host, fault)
    } else {
        fault
    }
}

/// What the keyboard needs while its followers move, or why nothing moves.
pub open spec fn keyboard_part(m: SwitchModel, answers: KeyboardAnswers) -> Result<
    KeyboardPart,
    Fault,
> {
    match (m.transition, answers.opened, answers.prepared) {
        (KeyboardHostTransition::AlreadyDeparting { host_slot }, _, _) => if host_slot
            == ReportedHostSlot::Empty {
            Err(Fault::HostSlotEmpty(m.host))
        } else {
            Ok(KeyboardPart::Departing)
        },
        (_, Err(fault), _) => Err(refusal(m, fault)),
        (_, Ok(None), _) => Err(refusal(m, Fault::KeyboardNotFound)),
        (_, Ok(Some(_)), Err(fault)) => Err(refusal(m, fault)),
        (_, Ok(Some(_)), Ok(change)) => Ok(KeyboardPart::Prepared(change)),
    }
}

/// A transition whose devices answer comes to an end. Its result and the moves
/// of the keyboard are decided by the keyboard's own answers alone, and the
/// moves of a follower by its own answers, its route and whether the transition
/// goes ahead.
pub proof fn a_transition_ends_as_its_devices_answer(
    m: SwitchModel,
    answers: LinkAnswers,
    index: int,
)
    requires
        m.targets.len() <= usize::MAX,
    ensures
        match keyboard_part(m, answers.keyboard) {
            Err(fault) => {
                &&& outcome(m, answers) == SwitchStep::Finish(Err(fault))
                &&& keyboard_writes(m, answers) == Seq::<PreparedHostChange>::empty()
                &&& target_writes(m, answers, index) == Seq::<PreparedHostChange>::empty()
            },
            Ok(part) => {
                &&& outcome(m, answers) == end_of_turns(part, answers.keyboard.written)
                &&& keyboard_writes(m, answers) == moves_after_turns(part)
                &&& target_writes(m, answers, index) == (if 0 <= index < m.targets.len() {
                    own_moves(m.targets[index], answers.targets[index], m.keyboard, part)
                } else {
                    Seq::empty()
                })
            },
        },
{
    reveal_with_fuel(reached, 4);
    reveal_with_fuel(keyboard_moves, 4);
    reveal_with_fuel(target_moves, 4);
    let rounds = ample(m.targets.len());
    match keyboard_part(m, answers.keyboard) {
        Err(_) => {
            assert(keyboard_writes(m, answers) =~= Seq::<PreparedHostChange>::empty());
            assert(target_writes(m, answers, index) =~= Seq::<PreparedHostChange>::empty());
        },
        Ok(part) => {
            if part is Departing {
                turns_are_run(m, answers, 0, part, rounds, index);
            } else {
                turns_are_run(m, answers, 0, part, (rounds - 2) as nat, index);
                turning_forgets_the_stage(m, 0, part);
                assert(keyboard_writes(m, answers) =~= moves_after_turns(part));
                assert(target_writes(m, answers, index) =~= (if 0 <= index < m.targets.len() {
                    own_moves(m.targets[index], answers.targets[index], m.keyboard, part)
                } else {
                    Seq::empty()
                }));
            }
        },
    }
}

/// The transition with one more follower at `place`.
pub open spec fn with_target(m: SwitchModel, place: int, target: RouteView) -> SwitchModel {
    SwitchModel { targets: m.targets.insert(place, target), ..m }
}

/// The answers with those of one more follower at `place`.
pub open spec fn with_answers(
    answers: LinkAnswers,
    place: int,
    target: TargetAnswers,
) -> LinkAnswers {
    LinkAnswers { targets: answers.targets.insert(place, target), ..answers }
}

/// Followers do not affect each other: with one more of them, wherever it
/// stands and whatever it answers, the transition has the same result and
/// commands the same moves of the keyboard and of every other follower.
pub proof fn one_more_target_affects_no_other_device(
    m: SwitchModel,
    answers: LinkAnswers,
    place: int,
    target: RouteView,
    target_answers: TargetAnswers,
    index: int,
)
    requires
        m.targets.len() < usize::MAX,
        answers.targets.len() == m.targets.len(),
        0 <= place <= m.targets.len(),
        0 <= index < m.targets.len(),
    ensures
        ({
            let more = with_target(m, place, target);
            let all = with_answers(answers, place, target_answers);
            let moved = if index < place {
                index
            } else {
                index + 1
            };
            &&& outcome(more, all) == outcome(m, answers)
            &&& outcome(m, answers) is Finish
            &&& keyboard_writes(more, all) == keyboard_writes(m, answers)
            &&& target_writes(more, all, moved) == target_writes(m, answers, index)
        }),
{
    let moved = if index < place {
        index
    } else {
        index + 1
    };
    a_transition_ends_as_its_devices_answer(m, answers, index);
    a_transition_ends_as_its_devices_answer(
        with_target(m, place, target),
        with_answers(answers, place, target_answers),
        moved,
    );
}

} // verus!
