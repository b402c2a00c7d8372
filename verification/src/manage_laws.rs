//! What holds of the manager's loop, whatever happens.

use vstd::prelude::*;

use crate::host_switch::request::HostSwitchRequest;
use crate::manage::{unmanaged, LoopModel, LoopReply, LoopStep, StageView};
use crate::manager::{is_running, serves, serves_none, ManagerModel};
use crate::manager_laws::{
    a_completion_finds_its_own_session_only, generations_stay_distinct, generations_tell_apart,
    one_session_each, startable_links_are_new, trimming_keeps_sessions_apart,
};
use crate::seqs::filtered_items_pass;
use crate::watcher::{generation_index, LinkView, SessionView};

verus! {

/// The loop after the first `n` replies.
pub open spec fn loop_at(replies: Seq<LoopReply>, n: int) -> LoopModel
    decreases n,
{
    if n <= 0 {
        unmanaged()
    } else {
        loop_at(replies, n - 1).after(replies[n - 1]).0
    }
}

/// What the loop asks for after the first `n` replies.
pub open spec fn loop_asks(replies: Seq<LoopReply>, n: int) -> LoopStep {
    if n <= 0 {
        LoopStep::Look
    } else {
        loop_at(replies, n - 1).after(replies[n - 1]).1
    }
}

/// Links that wait for leases are distinct and have no session.
pub open spec fn leasing_is_new(model: LoopModel) -> bool {
    match model.stage {
        StageView::Leasing { starting, .. } => {
            &&& forall|i: int, j: int|
                0 <= i < j < starting.len() ==> #[trigger] starting[i] != #[trigger] starting[j]
            &&& forall|i: int|
                0 <= i < starting.len() ==> !is_running(
                    model.state.sessions,
                    #[trigger] starting[i],
                )
        },
        _ => true,
    }
}

proof fn removal_keeps_links_apart(sessions: Seq<SessionView>, index: int)
    requires
        one_session_each(sessions),
        0 <= index < sessions.len(),
    ensures
        one_session_each(sessions.remove(index)),
{
    let left = sessions.remove(index);
    assert forall|i: int, j: int| 0 <= i < j < left.len() implies (#[trigger] left[i]).link != (
    #[trigger] left[j]).link by {
        let a = if i < index {
            i
        } else {
            i + 1
        };
        let b = if j < index {
            j
        } else {
            j + 1
        };
        assert(left[i] == sessions[a] && left[j] == sessions[b]);
    }
}

proof fn a_step_keeps_links_apart(model: LoopModel, reply: LoopReply)
    requires
        one_session_each(model.state.sessions),
        leasing_is_new(model),
    ensures
        one_session_each(model.after(reply).0.state.sessions),
        leasing_is_new(model.after(reply).0),
{
    let after = model.after(reply).0;
    match (model.stage, reply) {
        (
            StageView::Looking,
            LoopReply::Looked { requested, published, now, .. },
        ) => {
            trimming_keeps_sessions_apart(model.state, requested, published);
            let state = model.state.trimmed(requested, published);
            startable_links_are_new(
                state.sessions,
                state.restart_after,
                ManagerModel::wanted(requested, published),
                now,
            );
        },
        (StageView::Leasing { starting, at }, LoopReply::Leased { granted }) => {
            if granted <= starting.len() {
                let sessions = model.state.sessions;
                let count = sessions.len();
                let grown = after.state.sessions;
                assert forall|i: int, j: int| 0 <= i < j < grown.len() implies (
                #[trigger] grown[i]).link != (#[trigger] grown[j]).link by {
                    if i < count {
                        assert(grown[i] == sessions[i]);
                    } else {
                        assert(grown[i].link == starting[i - count]);
                    }
                    if j < count {
                        assert(grown[j] == sessions[j]);
                    } else {
                        assert(grown[j].link == starting[j - count]);
                        if i < count {
                            assert(!is_running(sessions, starting[j - count]));
                        } else {
                            assert(starting[i - count] != starting[j - count]);
                        }
                    }
                }
            }
        },
        (StageView::Waiting, LoopReply::Completed { generation, .. }) => {
            a_completion_finds_its_own_session_only(model.state.sessions, generation);
            if let Some(index) = generation_index(model.state.sessions, generation) {
                removal_keeps_links_apart(model.state.sessions, index);
            }
        },
        _ => {},
    }
}

/// Whatever happens, no link ever has two sessions.
pub proof fn no_link_ever_runs_twice(replies: Seq<LoopReply>, n: int)
    requires
        0 <= n <= replies.len(),
    ensures
        one_session_each(loop_at(replies, n).state.sessions),
        leasing_is_new(loop_at(replies, n)),
    decreases n,
{
    if n > 0 {
        no_link_ever_runs_twice(replies, n - 1);
        a_step_keeps_links_apart(loop_at(replies, n - 1), replies[n - 1]);
    }
}

/// The count of sessions does not overflow within the first `n` replies.
pub open spec fn count_fits(replies: Seq<LoopReply>, n: int) -> bool {
    forall|k: int|
        0 <= k < n ==> (#[trigger] replies[k] matches LoopReply::Leased { granted } ==> loop_at(
            replies,
            k,
        ).state.next_generation + granted <= u64::MAX)
}

/// As long as the 64-bit count of sessions does not overflow, no two live
/// sessions share a generation, and so a completion is never taken for that of
/// another session.
pub proof fn live_generations_are_distinct(replies: Seq<LoopReply>, n: int)
    requires
        0 <= n <= replies.len(),
        count_fits(replies, n),
    ensures
        generations_tell_apart(loop_at(replies, n).state),
    decreases n,
{
    if n > 0 {
        live_generations_are_distinct(replies, n - 1);
        let model = loop_at(replies, n - 1);
        let reply = replies[n - 1];
        match (model.stage, reply) {
            (StageView::Looking, LoopReply::Looked { requested, published, .. }) => {
                trimming_keeps_sessions_apart(model.state, requested, published);
            },
            (StageView::Leasing { starting, at }, LoopReply::Leased { granted }) => {
                if granted <= starting.len() {
                    generations_stay_distinct(model.state, starting, granted as int, at);
                }
            },
            (StageView::Waiting, LoopReply::Completed { generation, .. }) => {
                a_completion_finds_its_own_session_only(model.state.sessions, generation);
                if let Some(index) = generation_index(model.state.sessions, generation) {
                    let sessions = model.state.sessions;
                    let after = loop_at(replies, n).state;
                    let left = sessions.remove(index);
                    assert(after.sessions == left);
                    assert forall|i: int, j: int| 0 <= i < j < left.len() implies (
                    #[trigger] left[i]).generation != (#[trigger] left[j]).generation by {
                        let a = if i < index {
                            i
                        } else {
                            i + 1
                        };
                        let b = if j < index {
                            j
                        } else {
                            j + 1
                        };
                        assert(left[i] == sessions[a] && left[j] == sessions[b]);
                    }
                    assert forall|i: int| 0 <= i < left.len() implies (
                    #[trigger] left[i]).generation <= after.next_generation by {
                        let a = if i < index {
                            i
                        } else {
                            i + 1
                        };
                        assert(left[i] == sessions[a]);
                    }
                }
            },
            _ => {},
        }
    }
}

/// One of the first `n` replies is the completion of a session that was live
/// then, and carries this request.
pub open spec fn captured_within(
    replies: Seq<LoopReply>,
    n: int,
    link: LinkView,
    request: HostSwitchRequest,
) -> bool {
    exists|k: int|
        0 <= k < n && (#[trigger] replies[k] matches LoopReply::Completed {
            generation,
            request: Some((captured_link, captured)),
            ..
        } && captured_link == link && captured == request && generation_index(
            loop_at(replies, k).state.sessions,
            generation,
        ) is Some)
}

proof fn an_awaited_request_was_captured(replies: Seq<LoopReply>, n: int)
    requires
        0 <= n <= replies.len(),
    ensures
        loop_at(replies, n).stage matches StageView::AwaitingIo { link, request }
            ==> captured_within(replies, n, link, request),
        loop_at(replies, n).stage is Transitioning ==> loop_at(replies, n).state.sessions.len()
            == 0,
    decreases n,
{
    if n > 0 {
        an_awaited_request_was_captured(replies, n - 1);
        let before = loop_at(replies, n - 1);
        let after = loop_at(replies, n);
        if let StageView::AwaitingIo { link, request } = after.stage {
            if before.stage is AwaitingIo {
                assert(captured_within(replies, n - 1, link, request));
                let k = choose|k: int|
                    0 <= k < n - 1 && (#[trigger] replies[k] matches LoopReply::Completed {
                        generation,
                        request: Some((captured_link, captured)),
                        ..
                    } && captured_link == link && captured == request && generation_index(
                        loop_at(replies, k).state.sessions,
                        generation,
                    ) is Some);
                assert(replies[k] is Completed);
            } else {
                assert(replies[n - 1] is Completed);
            }
        }
    }
}

/// Linked devices are moved only for a request that a live session captured, and
/// only once every session is stopped: what a stopped session reports later
/// moves nothing.
pub proof fn only_live_sessions_start_transitions(
    replies: Seq<LoopReply>,
    n: int,
    stopped: Seq<SessionView>,
    link: LinkView,
    request: HostSwitchRequest,
)
    requires
        0 <= n <= replies.len(),
        loop_asks(replies, n) == (LoopStep::StopAndTransition { stopped, link, request }),
    ensures
        captured_within(replies, n, link, request),
        loop_at(replies, n).state.sessions.len() == 0,
        stopped == loop_at(replies, n - 1).state.sessions,
{
    an_awaited_request_was_captured(replies, n - 1);
    let k = choose|k: int|
        0 <= k < n - 1 && (#[trigger] replies[k] matches LoopReply::Completed {
            generation,
            request: Some((captured_link, captured)),
            ..
        } && captured_link == link && captured == request && generation_index(
            loop_at(replies, k).state.sessions,
            generation,
        ) is Some);
    assert(replies[k] is Completed);
}

/// The completion of a session that is not live leaves the state alone.
pub proof fn a_stale_completion_changes_nothing(
    model: LoopModel,
    generation: u64,
    request: Option<(LinkView, HostSwitchRequest)>,
    device_io_allowed: bool,
    now: u64,
)
    requires
        forall|i: int|
            0 <= i < model.state.sessions.len() ==> (#[trigger] model.state.sessions[i]).generation
                != generation,
    ensures
        ({
            let (after, step) = model.after(
                LoopReply::Completed { generation, request, device_io_allowed, now },
            );
            after.state == model.state && (step is Look || step is Ignore)
        }),
{
    a_completion_finds_its_own_session_only(model.state.sessions, generation);
}

/// While devices must be left alone a look neither stops nor starts a session,
/// nor sets a deadline.
pub proof fn a_suspended_loop_is_passive(
    model: LoopModel,
    changed: bool,
    requested: bool,
    published: Seq<LinkView>,
    now: u64,
)
    requires
        model.stage is Looking,
    ensures
        ({
            let (after, step) = model.after(
                LoopReply::Looked { changed, requested, published, device_io_allowed: false, now },
            );
            after.state == model.state && step == (LoopStep::Wait { deadline: None })
        }),
{
}

/// The step hands this session over, to be stopped or joined.
pub open spec fn hands_over(step: LoopStep, session: SessionView) -> bool {
    match step {
        LoopStep::StopAndLease { stopped, .. } => stopped.contains(session),
        LoopStep::StopAndTransition { stopped, .. } => stopped.contains(session),
        LoopStep::Join { completed } => completed == session,
        LoopStep::JoinAndAwaitIo { completed } => completed == session,
        _ => false,
    }
}

/// No session is lost: one that runs either keeps running or is handed over, to
/// be stopped or joined.
pub proof fn no_session_is_lost(model: LoopModel, reply: LoopReply, session: SessionView)
    requires
        model.state.sessions.contains(session),
    ensures
        model.after(reply).0.state.sessions.contains(session) || hands_over(
            model.after(reply).1,
            session,
        ),
{
    let sessions = model.state.sessions;
    let (after, step) = model.after(reply);
    let at = choose|at: int| 0 <= at < sessions.len() && sessions[at] == session;
    match (model.stage, reply) {
        (StageView::Looking, LoopReply::Looked { requested, published, .. }) => {
            let wanted = ManagerModel::wanted(requested, published);
            filtered_items_pass(sessions, serves(wanted));
            filtered_items_pass(sessions, serves_none(wanted));
        },
        (StageView::Leasing { starting, .. }, LoopReply::Leased { granted }) => {
            if granted <= starting.len() {
                assert(after.state.sessions[at] == session);
            }
        },
        (StageView::Waiting, LoopReply::Completed { generation, .. }) => {
            a_completion_finds_its_own_session_only(sessions, generation);
            if let Some(index) = generation_index(sessions, generation) {
                let left = sessions.remove(index);
                assert(after.state.sessions == left);
                if at < index {
                    assert(left[at] == session);
                } else if at > index {
                    assert(left[at - 1] == session);
                }
            }
        },
        _ => {},
    }
}

/// Once the loop has ended it asks for nothing more.
pub proof fn an_ended_loop_stays_ended(model: LoopModel, reply: LoopReply)
    requires
        model.stage is Ended,
    ensures
        model.after(reply) == (model, LoopStep::Ignore),
{
}

} // verus!
