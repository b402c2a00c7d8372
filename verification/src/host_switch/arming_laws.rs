//! What holds of every arming and every restoration, whatever the keyboard
//! answers.

use vstd::prelude::*;

use crate::host_switch::arming::{
    restoring, unarmed, ArmModel, ArmReply, ArmStage, ArmStep, CtrlIdInfo,
    RestoreAction, RestoreModel,
};
use crate::host_switch::controls::{
    restoration, ArmedControl, CidReporting, CidReportingChange, ControlCleanup, ReportingMode,
};
use crate::host_switch::error::Fault;

verus! {

/// An arming after the first `n` replies.
pub open spec fn arming_at(replies: Seq<ArmReply>, n: int) -> ArmModel
    decreases n,
{
    if n <= 0 {
        unarmed()
    } else {
        arming_at(replies, n - 1).after(replies[n - 1]).0
    }
}

/// What an arming asks for after the first `n` replies.
pub open spec fn arming_asks(replies: Seq<ArmReply>, n: int) -> ArmStep {
    if n <= 0 {
        ArmStep::ReadCount
    } else {
        arming_at(replies, n - 1).after(replies[n - 1]).1
    }
}

/// A step that changes how the control `cid` reports.
pub open spec fn writes(step: ArmStep, cid: u16) -> bool {
    match step {
        ArmStep::Divert { cid: written } => written == cid,
        ArmStep::EnableAnalytics { cid: written, .. } => written == cid,
        _ => false,
    }
}

/// The controls that a step hands over at the end of an arming.
pub open spec fn handed_over(step: ArmStep) -> Option<Seq<ArmedControl>> {
    match step {
        ArmStep::Armed(armed) => Some(armed),
        ArmStep::RollBack { armed, .. } => Some(armed),
        _ => None,
    }
}

/// A reply describes a host control that can report in this mode.
pub open spec fn describes(reply: ArmReply, cid: u16, host: u8, mode: ReportingMode) -> bool {
    match reply {
        ArmReply::InfoRead(Ok(info)) => {
            &&& info.cid == cid
            &&& info.host == Some(host)
            &&& mode == ReportingMode::Diverted ==> info.divertable
            &&& mode == ReportingMode::Analytics ==> info.analytics && !info.divertable
        },
        _ => false,
    }
}

/// One of the first `n` replies describes such a control.
pub open spec fn described_within(
    replies: Seq<ArmReply>,
    n: int,
    cid: u16,
    host: u8,
    mode: ReportingMode,
) -> bool {
    exists|j: int| 0 <= j < n && describes(#[trigger] replies[j], cid, host, mode)
}

/// The control is one that the first `n` replies describe.
pub open spec fn is_described(replies: Seq<ArmReply>, n: int, control: ArmedControl) -> bool {
    described_within(replies, n, control.cid, control.host, control.mode)
}

/// Before a control's reporting is changed, the control is recorded together
/// with the state that the keyboard had just reported for it.
pub proof fn a_control_is_recorded_before_it_is_written(
    replies: Seq<ArmReply>,
    n: int,
    cid: u16,
)
    requires
        0 <= n <= replies.len(),
        writes(arming_asks(replies, n), cid),
    ensures
        n > 0,
        arming_at(replies, n).armed.len() > 0,
        arming_at(replies, n).armed.last().cid == cid,
        replies[n - 1] == ArmReply::ReportingRead(Ok(arming_at(replies, n).armed.last().original)),
        arming_asks(replies, n) is Divert <==> arming_at(replies, n).armed.last().mode
            == ReportingMode::Diverted,
{
}

proof fn recorded_controls_stay(replies: Seq<ArmReply>, n: int, later: int)
    requires
        0 <= n <= later <= replies.len(),
    ensures
        arming_at(replies, later).stage is Finished || arming_at(replies, n).armed.is_prefix_of(
            arming_at(replies, later).armed,
        ),
    decreases later - n,
{
    if n < later {
        recorded_controls_stay(replies, n, later - 1);
    }
}

/// However an arming ends, every control whose reporting it may have changed is
/// handed over with its original state: the write that failed is no exception.
pub proof fn every_write_can_be_rolled_back(
    replies: Seq<ArmReply>,
    n: int,
    end: int,
    cid: u16,
    original: CidReporting,
)
    requires
        0 <= n < end <= replies.len(),
        writes(arming_asks(replies, n), cid),
        n > 0 && replies[n - 1] == ArmReply::ReportingRead(Ok(original)),
        handed_over(arming_asks(replies, end)) is Some,
    ensures
        exists|k: int|
            0 <= k < handed_over(arming_asks(replies, end))->Some_0.len() && (
            #[trigger] handed_over(arming_asks(replies, end))->Some_0[k]).cid == cid
                && handed_over(arming_asks(replies, end))->Some_0[k].original == original,
{
    a_control_is_recorded_before_it_is_written(replies, n, cid);
    recorded_controls_stay(replies, n, end - 1);
    let at = arming_at(replies, n).armed;
    let all = handed_over(arming_asks(replies, end))->Some_0;
    assert(all == arming_at(replies, end - 1).armed);
    let k = at.len() - 1;
    assert(all[k] == at[k]);
}

proof fn descriptions_stay(
    replies: Seq<ArmReply>,
    n: int,
    cid: u16,
    host: u8,
    mode: ReportingMode,
)
    requires
        described_within(replies, n, cid, host, mode),
    ensures
        described_within(replies, n + 1, cid, host, mode),
{
    let j = choose|j: int| 0 <= j < n && describes(#[trigger] replies[j], cid, host, mode);
    assert(describes(replies[j], cid, host, mode));
}

proof fn armed_controls_were_described(replies: Seq<ArmReply>, n: int)
    requires
        0 <= n <= replies.len(),
    ensures
        forall|k: int|
            0 <= k < arming_at(replies, n).armed.len() ==> is_described(
                replies,
                n,
                #[trigger] arming_at(replies, n).armed[k],
            ),
        arming_at(replies, n).stage matches ArmStage::ReadingReporting { cid, host, mode, .. }
            ==> described_within(replies, n, cid, host, mode),
    decreases n,
{
    if n > 0 {
        armed_controls_were_described(replies, n - 1);
        let before = arming_at(replies, n - 1);
        let now = arming_at(replies, n);
        if let ArmStage::ReadingReporting { cid, host, mode, .. } = before.stage {
            descriptions_stay(replies, n - 1, cid, host, mode);
        } else if let ArmStage::ReadingReporting { cid, host, mode, .. } = now.stage {
            assert(describes(replies[n - 1], cid, host, mode));
        }
        assert forall|k: int| 0 <= k < now.armed.len() implies is_described(
            replies,
            n,
            #[trigger] now.armed[k],
        ) by {
            let control = now.armed[k];
            if k < before.armed.len() {
                assert(control == before.armed[k]);
                descriptions_stay(replies, n - 1, control.cid, control.host, control.mode);
            }
        }
    }
}

/// Only controls that the keyboard described as host controls are armed, each
/// for the host it selects, diverted where it can be.
pub proof fn only_host_controls_are_armed(replies: Seq<ArmReply>, end: int, k: int)
    requires
        0 < end <= replies.len(),
        handed_over(arming_asks(replies, end)) is Some,
        0 <= k < handed_over(arming_asks(replies, end))->Some_0.len(),
    ensures
        is_described(replies, end, handed_over(arming_asks(replies, end))->Some_0[k]),
{
    armed_controls_were_described(replies, end - 1);
    let control = handed_over(arming_asks(replies, end))->Some_0[k];
    assert(control == arming_at(replies, end - 1).armed[k]);
    descriptions_stay(replies, end - 1, control.cid, control.host, control.mode);
}

/// The descriptions that an arming took up from the first `n` replies, in the
/// order of the controls.
pub open spec fn described(replies: Seq<ArmReply>, n: int) -> Seq<CtrlIdInfo>
    decreases n,
{
    if n <= 0 {
        Seq::empty()
    } else {
        match (arming_at(replies, n - 1).stage, replies[n - 1]) {
            (ArmStage::ReadingInfo { .. }, ArmReply::InfoRead(Ok(info))) => described(
                replies,
                n - 1,
            ).push(info),
            _ => described(replies, n - 1),
        }
    }
}

/// The host controls among the described ones that can report, each with its
/// host and the way it reports, in order.
pub open spec fn armable(infos: Seq<CtrlIdInfo>) -> Seq<(u16, u8, ReportingMode)>
    decreases infos.len(),
{
    if infos.len() == 0 {
        Seq::empty()
    } else {
        let before = armable(infos.drop_last());
        let info = infos.last();
        match info.host {
            Some(host) if info.divertable => before.push(
                (info.cid, host, ReportingMode::Diverted),
            ),
            Some(host) if info.analytics => before.push(
                (info.cid, host, ReportingMode::Analytics),
            ),
            _ => before,
        }
    }
}

/// Armed controls without the state they had.
pub open spec fn arrangement(armed: Seq<ArmedControl>) -> Seq<(u16, u8, ReportingMode)> {
    armed.map_values(|control: ArmedControl| (control.cid, control.host, control.mode))
}

/// One of the first `n` replies gave the number of controls.
pub open spec fn counted_within(replies: Seq<ArmReply>, n: int, count: u8) -> bool {
    exists|j: int| 0 <= j < n && #[trigger] replies[j] == ArmReply::Counted(Ok(count))
}

proof fn armed_controls_are_the_armable_ones(replies: Seq<ArmReply>, n: int)
    requires
        0 <= n <= replies.len(),
    ensures
        ({
            let now = arming_at(replies, n);
            let infos = described(replies, n);
            match now.stage {
                ArmStage::Counting => now.armed.len() == 0 && infos.len() == 0,
                ArmStage::ReadingInfo { index } => {
                    &&& index == infos.len() < now.count
                    &&& counted_within(replies, n, now.count)
                    &&& arrangement(now.armed) == armable(infos)
                },
                ArmStage::ReadingReporting { index, cid, host, mode } => {
                    &&& index + 1 == infos.len() <= now.count
                    &&& counted_within(replies, n, now.count)
                    &&& arrangement(now.armed).push((cid, host, mode)) == armable(infos)
                },
                ArmStage::Writing { index } => {
                    &&& index + 1 == infos.len() <= now.count
                    &&& counted_within(replies, n, now.count)
                    &&& arrangement(now.armed) == armable(infos)
                },
                ArmStage::Finished => true,
            }
        }),
        asks_for_row(arming_asks(replies, n), described(replies, n).len() as int),
        arming_asks(replies, n) matches ArmStep::Armed(armed) ==> {
            &&& arrangement(armed) == armable(described(replies, n))
            &&& described(replies, n).len() == arming_at(replies, n).count
            &&& counted_within(replies, n, arming_at(replies, n).count)
        },
    decreases n,
{
    if n > 0 {
        armed_controls_are_the_armable_ones(replies, n - 1);
        let before = arming_at(replies, n - 1);
        let now = arming_at(replies, n);
        if counted_within(replies, n - 1, before.count) {
            let j = choose|j: int|
                0 <= j < n - 1 && #[trigger] replies[j] == ArmReply::Counted(Ok(before.count));
            assert(replies[j] == ArmReply::Counted(Ok(before.count)));
        }
        match (before.stage, replies[n - 1]) {
            (ArmStage::Counting, ArmReply::Counted(Ok(count))) => {
                assert(arrangement(before.armed) =~= armable(described(replies, n)));
            },
            (ArmStage::ReadingInfo { .. }, ArmReply::InfoRead(Ok(info))) => {
                assert(described(replies, n).drop_last() =~= described(replies, n - 1));
            },
            (ArmStage::ReadingReporting { cid, host, mode, .. }, ArmReply::ReportingRead(Ok(_))) => {
                assert(arrangement(now.armed) =~= arrangement(before.armed).push(
                    (cid, host, mode),
                ));
            },
            _ => {},
        }
    }
}

/// A step that reads a control's description reads that of the control at
/// `row`.
pub open spec fn asks_for_row(step: ArmStep, row: int) -> bool {
    step matches ArmStep::ReadInfo { index } ==> index == row
}

/// The descriptions are asked for one after the other, from the first control
/// on. An arming that succeeds has read all of them, and has armed exactly the
/// host controls that can report, each for the host it selects and diverted
/// where it can be, in the order of the controls.
pub proof fn exactly_the_host_controls_are_armed(replies: Seq<ArmReply>, n: int)
    requires
        0 <= n <= replies.len(),
    ensures
        asks_for_row(arming_asks(replies, n), described(replies, n).len() as int),
        arming_asks(replies, n) matches ArmStep::Armed(armed) ==> {
            &&& arrangement(armed) == armable(described(replies, n))
            &&& described(replies, n).len() == arming_at(replies, n).count
            &&& counted_within(replies, n, arming_at(replies, n).count)
        },
{
    armed_controls_are_the_armable_ones(replies, n);
}

/// The state of a control is read only where the reply just taken described it
/// as a host control that can report, and it is that control's.
pub proof fn a_described_host_control_is_read_next(replies: Seq<ArmReply>, n: int, cid: u16)
    requires
        0 <= n <= replies.len(),
        arming_asks(replies, n) == (ArmStep::ReadReporting { cid }),
    ensures
        n > 0,
        arming_at(replies, n - 1).stage is ReadingInfo,
        replies[n - 1] matches ArmReply::InfoRead(Ok(info)) && info.cid == cid && info.host is Some
            && (info.divertable || info.analytics),
{
}

/// A control that is not diverted is made to report analytics events, and
/// nothing else about it is changed.
pub proof fn only_analytics_events_are_enabled(
    replies: Seq<ArmReply>,
    n: int,
    cid: u16,
    change: CidReportingChange,
)
    requires
        0 <= n <= replies.len(),
        arming_asks(replies, n) == (ArmStep::EnableAnalytics { cid, change }),
    ensures
        change.analytics_key_events == Some(true),
        change.diverted is None,
        change.persistently_diverted is None,
        change.force_raw_xy is None,
        change.raw_xy is None,
        change.remap is None,
        change.raw_wheel is None,
{
}

/// The reply answers the operation that an arming at this stage asked for.
pub open spec fn answers_stage(stage: ArmStage, reply: ArmReply) -> bool {
    match stage {
        ArmStage::Counting => reply is Counted,
        ArmStage::ReadingInfo { .. } => reply is InfoRead,
        ArmStage::ReadingReporting { .. } => reply is ReportingRead,
        ArmStage::Writing { .. } => reply is Written,
        ArmStage::Finished => false,
    }
}

/// How many more answers an arming that has counted its controls can take.
pub open spec fn answers_left(model: ArmModel) -> int {
    match model.stage {
        ArmStage::Counting => 769int,
        ArmStage::ReadingInfo { index } => 3 * (model.count - index),
        ArmStage::ReadingReporting { index, .. } => 3 * (model.count - index) - 1,
        ArmStage::Writing { index } => 3 * (model.count - index) - 2,
        ArmStage::Finished => 0,
    }
}

/// Every answer to what an arming asked for is taken up and brings it closer to
/// its end, and every other reply is ignored; so an arming whose operations are
/// answered ends.
pub proof fn every_answer_moves_an_arming_on(model: ArmModel, reply: ArmReply)
    requires
        model.well_formed(),
    ensures
        answers_stage(model.stage, reply) ==> !(model.after(reply).1 is Ignore) && 0 <= answers_left(
            model.after(reply).0,
        ) < answers_left(model),
        !answers_stage(model.stage, reply) ==> model.after(reply) == (model, ArmStep::Ignore),
        model.after(reply).0.well_formed(),
        model.after(reply).0.stage is Finished && !(model.stage is Finished) ==> handed_over(
            model.after(reply).1,
        ) is Some,
{
}

/// The fault that a reply answers the outstanding operation with, if it does.
pub open spec fn fault_in(stage: ArmStage, reply: ArmReply) -> Option<Fault> {
    match (stage, reply) {
        (ArmStage::Counting, ArmReply::Counted(Err(fault))) => Some(fault),
        (ArmStage::ReadingInfo { .. }, ArmReply::InfoRead(Err(fault))) => Some(fault),
        (ArmStage::ReadingReporting { .. }, ArmReply::ReportingRead(Err(fault))) => Some(fault),
        (ArmStage::Writing { .. }, ArmReply::Written(Err(fault))) => Some(fault),
        _ => None,
    }
}

/// An arming fails exactly where an operation that it asked for fails: it ends
/// at once, with that fault and all controls recorded so far.
pub proof fn a_failed_operation_ends_an_arming(replies: Seq<ArmReply>, n: int, fault: Fault)
    requires
        0 < n <= replies.len(),
    ensures
        fault_in(arming_at(replies, n - 1).stage, replies[n - 1]) == Some(fault) ==> arming_asks(
            replies,
            n,
        ) == (ArmStep::RollBack { armed: arming_at(replies, n - 1).armed, fault }),
        arming_asks(replies, n) is RollBack ==> fault_in(
            arming_at(replies, n - 1).stage,
            replies[n - 1],
        ) == Some(arming_asks(replies, n)->RollBack_fault),
{
}

/// A restoration after the first `n` writes.
pub open spec fn restoring_at(m: RestoreModel, written: Seq<bool>, n: int) -> RestoreModel
    decreases n,
{
    if n <= 0 {
        m
    } else {
        restoring_at(m, written, n - 1).after(written[n - 1])
    }
}

/// Within its first `n` writes the restoration sends the control its original
/// state.
pub open spec fn sent_within(
    m: RestoreModel,
    written: Seq<bool>,
    n: int,
    control: ArmedControl,
) -> bool {
    exists|j: int|
        0 <= j < n && (#[trigger] restoring_at(m, written, j)).wanted() == (RestoreAction::Write {
            cid: control.cid,
            change: restoration(control),
        })
}

/// However patiently controls are put back and whatever becomes of the writes,
/// each control that the restoration has passed was sent its original state: at
/// the end, all of them.
pub proof fn every_control_is_sent_its_restoration(
    armed: Seq<ArmedControl>,
    cleanup: ControlCleanup,
    written: Seq<bool>,
    n: int,
    k: int,
)
    requires
        0 <= n <= written.len(),
        0 <= k < armed.len(),
        k < restoring_at(restoring(armed, cleanup), written, n).index || restoring_at(
            restoring(armed, cleanup),
            written,
            n,
        ).wanted() is Done,
    ensures
        sent_within(restoring(armed, cleanup), written, n, armed[k]),
{
    passed_controls_were_sent(armed, cleanup, written, n, k);
}

proof fn passed_controls_were_sent(
    armed: Seq<ArmedControl>,
    cleanup: ControlCleanup,
    written: Seq<bool>,
    n: int,
    k: int,
)
    requires
        0 <= n <= written.len(),
        0 <= k < armed.len(),
    ensures
        restoring_at(restoring(armed, cleanup), written, n).armed == armed,
        0 <= restoring_at(restoring(armed, cleanup), written, n).index <= armed.len(),
        k < restoring_at(restoring(armed, cleanup), written, n).index ==> sent_within(
            restoring(armed, cleanup),
            written,
            n,
            armed[k],
        ),
    decreases n,
{
    let begun = restoring(armed, cleanup);
    if n > 0 {
        passed_controls_were_sent(armed, cleanup, written, n - 1, k);
        let before = restoring_at(begun, written, n - 1);
        if k < before.index {
            let j = choose|j: int|
                0 <= j < n - 1 && (#[trigger] restoring_at(begun, written, j)).wanted() == (
                RestoreAction::Write { cid: armed[k].cid, change: restoration(armed[k]) });
            assert(restoring_at(begun, written, j).wanted() == (RestoreAction::Write {
                cid: armed[k].cid,
                change: restoration(armed[k]),
            }));
        } else if k == before.index {
            assert(before.wanted() == (RestoreAction::Write {
                cid: armed[k].cid,
                change: restoration(armed[k]),
            }));
        }
    }
}

/// A prompt restoration writes every control exactly once, in order, whatever
/// becomes of the writes.
pub proof fn prompt_restoration_never_repeats(
    armed: Seq<ArmedControl>,
    written: Seq<bool>,
    n: int,
)
    requires
        0 <= n <= written.len(),
    ensures
        restoring_at(restoring(armed, ControlCleanup::Prompt), written, n) == (RestoreModel {
            armed,
            index: if n < armed.len() {
                n
            } else {
                armed.len() as int
            },
            retried: false,
            cleanup: ControlCleanup::Prompt,
        }),
    decreases n,
{
    if n > 0 {
        prompt_restoration_never_repeats(armed, written, n - 1);
    }
}

/// A full restoration gives each control one write, and a second one only
/// where the first failed: `n` writes bring it past at least half of `n`
/// controls, and past all `n` where none fails.
pub proof fn full_restoration_retries_once(armed: Seq<ArmedControl>, written: Seq<bool>, n: int)
    requires
        0 <= n <= written.len(),
    ensures
        ({
            let now = restoring_at(restoring(armed, ControlCleanup::Full), written, n);
            &&& now.armed == armed
            &&& now.cleanup == ControlCleanup::Full
            &&& 0 <= now.index <= armed.len()
            &&& now.index < armed.len() ==> now.index <= n <= 2 * now.index + (if now.retried {
                1int
            } else {
                0int
            })
            &&& now.retried ==> now.index < armed.len() && n > 0 && !written[n - 1]
            &&& (forall|i: int| 0 <= i < n ==> #[trigger] written[i]) ==> now.index == (if n
                < armed.len() {
                n
            } else {
                armed.len() as int
            }) && !now.retried
        }),
    decreases n,
{
    if n > 0 {
        full_restoration_retries_once(armed, written, n - 1);
    }
}

} // verus!
