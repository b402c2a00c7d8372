//! How sessions are fitted to the published links, told link by link.

use vstd::prelude::*;

use crate::host_switch::request::{HostSwitchCaptureMode, HostSwitchRequest};
use crate::manage::{unmanaged, LoopModel, LoopReply, LoopStep, StageView};
use crate::manager::{
    delays_none_of, delays_one_of, earliest, generation_after, is_delayed, is_running, serves,
    serves_none, startable, starts, ManagerModel,
};
use crate::manager_laws::{
    a_completion_finds_its_own_session_only, startable_links_are_new,
    the_deadline_is_the_earliest_delay,
};
use crate::seqs::filtered_items_pass;
use crate::watcher::{capture_mode, generation_index, remembered, LinkView, SessionView};

verus! {

/// A keyboard is captured by its announcements alone exactly where they were
/// observed before.
pub proof fn only_known_keyboards_are_captured_by_announcements(
    keys: Seq<Seq<char>>,
    key: Seq<char>,
)
    ensures
        capture_mode(keys, key) == HostSwitchCaptureMode::ChangeHostAnnouncement <==> exists|i: int|
            0 <= i < keys.len() && #[trigger] keys[i] == key,
        capture_mode(keys, key) == HostSwitchCaptureMode::Full <==> forall|i: int|
            0 <= i < keys.len() ==> #[trigger] keys[i] != key,
{
    if keys.contains(key) {
        let i = choose|i: int| 0 <= i < keys.len() && keys[i] == key;
        assert(keys[i] == key);
    }
}

/// Once an announcement is observed the keyboard is known, those known before
/// stay known, and nobody else becomes known.
pub proof fn observing_an_announcement_adds_one_keyboard(
    keys: Seq<Seq<char>>,
    key: Seq<char>,
    other: Seq<char>,
)
    ensures
        remembered(keys, key).contains(other) <==> keys.contains(other) || other == key,
        keys.is_prefix_of(remembered(keys, key)),
        remembered(keys, key).len() <= keys.len() + 1,
{
    let known = remembered(keys, key);
    if keys.contains(other) {
        let i = choose|i: int| 0 <= i < keys.len() && keys[i] == other;
        assert(known[i] == other);
    }
    if known.contains(other) {
        let i = choose|i: int| 0 <= i < known.len() && known[i] == other;
        if i < keys.len() {
            assert(keys[i] == other);
        }
    }
    if !keys.contains(key) {
        assert(known[keys.len() as int] == key);
    }
}

/// A link is started exactly where it is wanted, no session serves it, and every
/// delay of it is over.
pub proof fn a_link_is_started_once_it_may_run(
    sessions: Seq<SessionView>,
    delays: Seq<(LinkView, u64)>,
    wanted: Seq<LinkView>,
    now: u64,
    link: LinkView,
)
    ensures
        startable(sessions, delays, wanted, now).contains(link) <==> {
            &&& wanted.contains(link)
            &&& forall|i: int| 0 <= i < sessions.len() ==> (#[trigger] sessions[i]).link != link
            &&& forall|i: int|
                0 <= i < delays.len() && (#[trigger] delays[i]).0 == link ==> delays[i].1 <= now
        },
{
    startable_links_are_new(sessions, delays, wanted, now);
    let starting = startable(sessions, delays, wanted, now);
    if starting.contains(link) {
        let i = choose|i: int| 0 <= i < starting.len() && starting[i] == link;
        assert(!is_running(sessions, starting[i]) && !is_delayed(delays, starting[i], now));
    } else if wanted.contains(link) {
        let k = choose|k: int| 0 <= k < wanted.len() && wanted[k] == link;
        assert(is_running(sessions, wanted[k]) || is_delayed(delays, wanted[k], now));
    }
}

/// A reconciliation keeps exactly the sessions of published links, and none at
/// all while a receiver is wanted exclusively; the others are stopped. Delays of
/// published links stay, whoever waits for a receiver.
pub proof fn only_published_links_are_kept(
    model: ManagerModel,
    requested: bool,
    published: Seq<LinkView>,
    session: SessionView,
    delay: (LinkView, u64),
)
    ensures
        ({
            let kept = model.trimmed(requested, published);
            let stopped = model.sessions.filter(
                serves_none(ManagerModel::wanted(requested, published)),
            );
            &&& kept.sessions.contains(session) <==> model.sessions.contains(session) && !requested
                && published.contains(session.link)
            &&& stopped.contains(session) <==> model.sessions.contains(session) && (requested
                || !published.contains(session.link))
            &&& kept.restart_after.contains(delay) <==> model.restart_after.contains(delay)
                && published.contains(delay.0)
            &&& kept.next_generation == model.next_generation
            &&& kept.announcement_keyboards == model.announcement_keyboards
        }),
{
    let wanted = ManagerModel::wanted(requested, published);
    filtered_items_pass(model.sessions, serves(wanted));
    filtered_items_pass(model.sessions, serves_none(wanted));
    filtered_items_pass(model.restart_after, delays_one_of(published));
}

/// While a receiver is wanted exclusively no link is started.
pub proof fn a_wanted_receiver_starts_nothing(
    sessions: Seq<SessionView>,
    delays: Seq<(LinkView, u64)>,
    published: Seq<LinkView>,
    now: u64,
)
    ensures
        startable(sessions, delays, ManagerModel::wanted(true, published), now).len() == 0,
{
}

/// Each granted link gets one session, in order, behind those that run. It is
/// numbered one higher than the last, wrapping around at the end, and captured as
/// its keyboard allows.
pub proof fn granted_links_get_numbered_sessions(
    model: ManagerModel,
    starting: Seq<LinkView>,
    granted: int,
    now: u64,
    at: int,
)
    requires
        0 <= at < granted <= starting.len(),
    ensures
        ({
            let after = model.after_starts(starting, granted, now);
            let begun = starts(model, starting, granted);
            let number = model.next_generation + at + 1;
            &&& after.sessions.len() == model.sessions.len() + granted
            &&& after.sessions.take(model.sessions.len() as int) == model.sessions
            &&& begun.len() == granted
            &&& begun[at].link == starting[at]
            &&& after.sessions[model.sessions.len() + at].link == starting[at]
            &&& after.sessions[model.sessions.len() + at].generation == begun[at].generation
            &&& number <= u64::MAX ==> begun[at].generation == number
            &&& begun[at].capture_mode == HostSwitchCaptureMode::ChangeHostAnnouncement
                <==> model.announcement_keyboards.contains(starting[at].keyboard_key)
            &&& after.announcement_keyboards == model.announcement_keyboards
        }),
{
    let after = model.after_starts(starting, granted, now);
    assert(after.sessions.take(model.sessions.len() as int) =~= model.sessions);
}

/// The number of the session started last is remembered, and goes up by one per
/// session.
pub proof fn the_last_number_is_remembered(
    model: ManagerModel,
    starting: Seq<LinkView>,
    granted: int,
    now: u64,
)
    requires
        0 <= granted <= starting.len(),
        model.next_generation + granted <= u64::MAX,
    ensures
        model.after_starts(starting, granted, now).next_generation == model.next_generation
            + granted,
        generation_after(u64::MAX, 1) == 0,
{
}

/// Starting links does away with their delays and with no others. The first link
/// that got no lease waits a second from now; the links behind it are left as
/// they are.
pub proof fn a_link_without_a_lease_waits_a_second(
    model: ManagerModel,
    starting: Seq<LinkView>,
    granted: int,
    now: u64,
    delay: (LinkView, u64),
)
    requires
        0 <= granted <= starting.len(),
        now + 1000 <= u64::MAX,
    ensures
        ({
            let after = model.after_starts(starting, granted, now);
            let tried = |link: LinkView|
                exists|i: int| 0 <= i <= granted && i < starting.len() && #[trigger] starting[i] == link;
            after.restart_after.contains(delay) <==> (model.restart_after.contains(delay) && !tried(
                delay.0,
            )) || (granted < starting.len() && delay == (starting[granted], (now + 1000) as u64))
        }),
{
    let after = model.after_starts(starting, granted, now);
    let count = if granted < starting.len() {
        granted + 1
    } else {
        granted
    };
    let front = starting.take(count);
    filtered_items_pass(model.restart_after, delays_none_of(front));
    let kept = model.restart_after.filter(delays_none_of(front));
    assert(front.contains(delay.0) <==> exists|i: int|
        0 <= i <= granted && i < starting.len() && #[trigger] starting[i] == delay.0) by {
        if front.contains(delay.0) {
            let i = choose|i: int| 0 <= i < front.len() && front[i] == delay.0;
            assert(starting[i] == delay.0);
        }
        if exists|i: int|
            0 <= i <= granted && i < starting.len() && #[trigger] starting[i] == delay.0 {
            let i = choose|i: int|
                0 <= i <= granted && i < starting.len() && #[trigger] starting[i] == delay.0;
            assert(front[i] == delay.0);
        }
    }
    if granted < starting.len() {
        let last = (starting[granted], (now + 1000) as u64);
        assert(after.restart_after == kept.push(last));
        if after.restart_after.contains(delay) {
            let i = choose|i: int|
                0 <= i < after.restart_after.len() && after.restart_after[i] == delay;
            if i < kept.len() {
                assert(kept[i] == delay);
                assert(kept.contains(delay));
            }
        }
        if kept.contains(delay) {
            let i = choose|i: int| 0 <= i < kept.len() && kept[i] == delay;
            assert(after.restart_after[i] == delay);
        }
        assert(after.restart_after[kept.len() as int] == last);
    } else {
        assert(after.restart_after == kept);
    }
}

/// A session that ends with a request teaches at most that its keyboard announces
/// its departures. One that ends without a request makes its link wait a second,
/// unless devices must be left alone. Nothing else changes.
pub proof fn a_completion_teaches_or_delays(
    model: ManagerModel,
    completed: LinkView,
    link: LinkView,
    request: HostSwitchRequest,
    device_io_allowed: bool,
    now: u64,
)
    requires
        now + 1000 <= u64::MAX,
    ensures
        ({
            let after = model.after_completion(
                completed,
                Some((link, request)),
                device_io_allowed,
                now,
            );
            &&& after.sessions == model.sessions
            &&& after.next_generation == model.next_generation
            &&& after.restart_after == model.restart_after
            &&& request.keyboard_transition is AlreadyDeparting
                ==> after.announcement_keyboards.contains(link.keyboard_key)
            &&& !(request.keyboard_transition is AlreadyDeparting) ==> after.announcement_keyboards
                == model.announcement_keyboards
        }),
        ({
            let after = model.after_completion(completed, None, device_io_allowed, now);
            &&& after.sessions == model.sessions
            &&& after.next_generation == model.next_generation
            &&& after.announcement_keyboards == model.announcement_keyboards
            &&& after.restart_after == if device_io_allowed {
                model.restart_after.push((completed, (now + 1000) as u64))
            } else {
                model.restart_after
            }
        }),
{
    observing_an_announcement_adds_one_keyboard(
        model.announcement_keyboards,
        link.keyboard_key,
        link.keyboard_key,
    );
}

/// Some delayed link has fallen due.
pub open spec fn something_is_due(delays: Seq<(LinkView, u64)>, now: u64) -> bool {
    exists|i: int| 0 <= i < delays.len() && (#[trigger] delays[i]).1 <= now
}

/// While devices may be talked to, a look fits the sessions to the links exactly
/// where that is owed, something changed, or a delayed link fell due while no
/// receiver is wanted exclusively. Otherwise it waits, and changes no session.
pub proof fn a_look_fits_sessions_when_there_is_cause(
    model: LoopModel,
    changed: bool,
    requested: bool,
    published: Seq<LinkView>,
    now: u64,
)
    requires
        model.stage is Looking,
    ensures
        ({
            let (after, step) = model.after(
                LoopReply::Looked { changed, requested, published, device_io_allowed: true, now },
            );
            if model.reconcile || changed || (!requested && something_is_due(
                model.state.restart_after,
                now,
            )) {
                step is StopAndLease
            } else {
                &&& step is Wait
                &&& after.stage is Waiting
                &&& after.state == model.state
            }
        }),
{
    let delays = model.state.restart_after;
    the_deadline_is_the_earliest_delay(delays);
    if something_is_due(delays, now) {
        let i = choose|i: int| 0 <= i < delays.len() && (#[trigger] delays[i]).1 <= now;
        assert(earliest(delays)->Some_0 <= delays[i].1);
    }
}

/// A fitting stops exactly the sessions whose links are not published any more,
/// or all of them while a receiver is wanted exclusively. It then asks for one
/// lease per link that may start.
pub proof fn a_fitting_stops_and_starts_what_it_should(
    model: LoopModel,
    changed: bool,
    requested: bool,
    published: Seq<LinkView>,
    now: u64,
    session: SessionView,
    link: LinkView,
)
    requires
        model.stage is Looking,
        model.after(
            LoopReply::Looked { changed, requested, published, device_io_allowed: true, now },
        ).1 is StopAndLease,
    ensures
        ({
            let (after, step) = model.after(
                LoopReply::Looked { changed, requested, published, device_io_allowed: true, now },
            );
            &&& (step matches LoopStep::StopAndLease { stopped, wanted } && {
                &&& stopped.contains(session) <==> model.state.sessions.contains(session) && (
                requested || !published.contains(session.link))
                &&& after.state.sessions.contains(session) <==> model.state.sessions.contains(
                    session,
                ) && !requested && published.contains(session.link)
                &&& (after.stage matches StageView::Leasing { starting, at } && {
                    &&& at == now
                    &&& wanted == starting.len()
                    &&& starting.contains(link) <==> {
                        &&& !requested
                        &&& published.contains(link)
                        &&& forall|i: int|
                            0 <= i < after.state.sessions.len() ==> (
                            #[trigger] after.state.sessions[i]).link != link
                        &&& forall|i: int|
                            0 <= i < after.state.restart_after.len() && (
                            #[trigger] after.state.restart_after[i]).0 == link
                                ==> after.state.restart_after[i].1 <= now
                    }
                })
            })
        }),
{
    let wanted = ManagerModel::wanted(requested, published);
    let state = model.state.trimmed(requested, published);
    only_published_links_are_kept(model.state, requested, published, session, (link, 0u64));
    a_link_is_started_once_it_may_run(state.sessions, state.restart_after, wanted, now, link);
}

/// What is granted is started: the loop hands out one session per lease, for the
/// links that it asked leases for and in their order.
pub proof fn leases_are_turned_into_sessions(
    model: LoopModel,
    starting: Seq<LinkView>,
    at: u64,
    granted: nat,
    i: int,
)
    requires
        model.stage == (StageView::Leasing { starting, at }),
        granted <= starting.len(),
        0 <= i < granted,
        at + 1000 <= u64::MAX,
    ensures
        ({
            let (after, step) = model.after(LoopReply::Leased { granted });
            &&& after.stage is Looking
            &&& after.state.announcement_keyboards == model.state.announcement_keyboards
            &&& granted < starting.len() ==> after.state.restart_after.contains(
                (starting[granted as int], (at + 1000) as u64),
            )
            &&& (step matches LoopStep::Start(begun) && begun.len() == granted && begun[i].link
                == starting[i] && after.state.sessions[model.state.sessions.len() + i].link
                == starting[i] && after.state.sessions[model.state.sessions.len() + i].generation
                == begun[i].generation && (begun[i].capture_mode
                == HostSwitchCaptureMode::ChangeHostAnnouncement
                <==> model.state.announcement_keyboards.contains(starting[i].keyboard_key)))
        }),
{
    if granted < starting.len() {
        a_link_without_a_lease_waits_a_second(
            model.state,
            starting,
            granted as int,
            at,
            (starting[granted as int], (at + 1000) as u64),
        );
    }
}

/// Whatever may have changed makes the next look fit the sessions again: new
/// links, new requests for a receiver, a deadline, and the end of a suspension.
pub proof fn a_change_is_fitted_to_at_the_next_look(
    model: LoopModel,
    reply: LoopReply,
    changed: bool,
    requested: bool,
    published: Seq<LinkView>,
    now: u64,
)
    requires
        model.stage is Waiting && (reply == (LoopReply::LinksChanged { closed: false }) || reply == (
        LoopReply::RequestsChanged { closed: false }) || reply == LoopReply::DeadlineReached
            || reply == (LoopReply::DeviceIoChanged { allowed: Some(true) })) || (model.stage
            is Transitioning && reply == LoopReply::TransitionEnded),
    ensures
        ({
            let (after, step) = model.after(reply);
            &&& step is Look
            &&& after.state == model.state
            &&& after.after(
                LoopReply::Looked { changed, requested, published, device_io_allowed: true, now },
            ).1 is StopAndLease
        }),
{
}

/// A loop begins without sessions, delays or known keyboards, and its first look
/// fits sessions to the links as soon as devices may be talked to.
pub proof fn the_first_look_fits_sessions(
    changed: bool,
    requested: bool,
    published: Seq<LinkView>,
    now: u64,
)
    ensures
        unmanaged().stage is Looking,
        unmanaged().state.sessions.len() == 0,
        unmanaged().state.restart_after.len() == 0,
        unmanaged().state.announcement_keyboards.len() == 0,
        unmanaged().after(
            LoopReply::Looked { changed, requested, published, device_io_allowed: true, now },
        ).1 is StopAndLease,
{
}

/// A suspension is only looked at; it owes nothing.
pub proof fn a_suspension_owes_nothing(model: LoopModel)
    requires
        model.stage is Waiting,
    ensures
        ({
            let (after, step) = model.after(LoopReply::DeviceIoChanged { allowed: Some(false) });
            step is Look && after.state == model.state && after.reconcile == model.reconcile
        }),
{
}

/// The loop ends exactly where nothing will be published, requested or decided
/// any more.
pub proof fn the_loop_ends_when_its_sources_do(model: LoopModel, reply: LoopReply)
    ensures
        model.after(reply).1 is Finish <==> {
            ||| model.stage is Waiting && (reply == (LoopReply::LinksChanged { closed: true })
                || reply == (LoopReply::RequestsChanged { closed: true }) || reply == (
            LoopReply::DeviceIoChanged { allowed: None }))
            ||| model.stage is AwaitingIo && reply == (LoopReply::IoAwaited { resumed: false })
        },
{
}

/// The completion of a live session joins that session and takes it out. With a
/// request, and as soon as devices may be talked to, every other session is
/// stopped and the captured link is moved as requested.
pub proof fn a_captured_request_is_carried_out(
    model: LoopModel,
    at: int,
    link: LinkView,
    request: HostSwitchRequest,
    device_io_allowed: bool,
    now: u64,
)
    requires
        model.stage is Waiting,
        0 <= at < model.state.sessions.len(),
        forall|k: int|
            0 <= k < at ==> (#[trigger] model.state.sessions[k]).generation
                != model.state.sessions[at].generation,
    ensures
        ({
            let session = model.state.sessions[at];
            let (after, step) = model.after(
                LoopReply::Completed {
                    generation: session.generation,
                    request: Some((link, request)),
                    device_io_allowed,
                    now,
                },
            );
            let rest = model.state.sessions.remove(at);
            let (moved, action) = after.after(LoopReply::IoAwaited { resumed: true });
            &&& step == (LoopStep::JoinAndAwaitIo { completed: session })
            &&& after.state.sessions == rest
            &&& after.state.next_generation == model.state.next_generation
            &&& after.state.restart_after == model.state.restart_after
            &&& request.keyboard_transition is AlreadyDeparting
                ==> after.state.announcement_keyboards.contains(link.keyboard_key)
            &&& !(request.keyboard_transition is AlreadyDeparting)
                ==> after.state.announcement_keyboards == model.state.announcement_keyboards
            &&& action == (LoopStep::StopAndTransition { stopped: rest, link, request })
            &&& moved.stage is Transitioning
            &&& moved.state.sessions.len() == 0
            &&& moved.state.next_generation == after.state.next_generation
            &&& moved.state.restart_after == after.state.restart_after
            &&& moved.state.announcement_keyboards == after.state.announcement_keyboards
        }),
{
    observing_an_announcement_adds_one_keyboard(
        model.state.announcement_keyboards,
        link.keyboard_key,
        link.keyboard_key,
    );
    a_completion_finds_its_own_session_only(
        model.state.sessions,
        model.state.sessions[at].generation,
    );
    let found = generation_index(model.state.sessions, model.state.sessions[at].generation);
    if let Some(index) = found {
        if index < at {
            assert(model.state.sessions[index].generation != model.state.sessions[at].generation);
        } else if index > at {
            assert(model.state.sessions[at].generation != model.state.sessions[at].generation);
        }
    } else {
        assert(model.state.sessions[at].generation != model.state.sessions[at].generation);
    }
}

/// The completion of a live session without a request joins that session, takes
/// it out, and makes the next look fit the sessions again; its link then waits a
/// second.
pub proof fn an_ended_session_is_fitted_to(
    model: LoopModel,
    at: int,
    ended: u64,
    changed: bool,
    requested: bool,
    published: Seq<LinkView>,
    now: u64,
)
    requires
        model.stage is Waiting,
        0 <= at < model.state.sessions.len(),
        forall|k: int|
            0 <= k < at ==> (#[trigger] model.state.sessions[k]).generation
                != model.state.sessions[at].generation,
        ended + 1000 <= u64::MAX,
    ensures
        ({
            let session = model.state.sessions[at];
            let (after, step) = model.after(
                LoopReply::Completed {
                    generation: session.generation,
                    request: None,
                    device_io_allowed: true,
                    now: ended,
                },
            );
            &&& step == (LoopStep::Join { completed: session })
            &&& after.state.sessions == model.state.sessions.remove(at)
            &&& after.state.next_generation == model.state.next_generation
            &&& after.state.announcement_keyboards == model.state.announcement_keyboards
            &&& after.state.restart_after == model.state.restart_after.push(
                (session.link, (ended + 1000) as u64),
            )
            &&& after.after(
                LoopReply::Looked { changed, requested, published, device_io_allowed: true, now },
            ).1 is StopAndLease
        }),
{
    a_completion_finds_its_own_session_only(
        model.state.sessions,
        model.state.sessions[at].generation,
    );
    let found = generation_index(model.state.sessions, model.state.sessions[at].generation);
    if let Some(index) = found {
        if index < at {
            assert(model.state.sessions[index].generation != model.state.sessions[at].generation);
        } else if index > at {
            assert(model.state.sessions[at].generation != model.state.sessions[at].generation);
        }
    } else {
        assert(model.state.sessions[at].generation != model.state.sessions[at].generation);
    }
}

/// While devices must be left alone a session that ended makes no link wait.
pub proof fn a_session_that_ends_while_suspended_delays_nothing(
    model: LoopModel,
    generation: u64,
    now: u64,
)
    ensures
        model.after(
            LoopReply::Completed { generation, request: None, device_io_allowed: false, now },
        ).0.state.restart_after == model.state.restart_after,
{
}

/// A look pays what is owed: nothing is owed any more after it.
pub proof fn a_look_leaves_nothing_owed(
    model: LoopModel,
    changed: bool,
    requested: bool,
    published: Seq<LinkView>,
    device_io_allowed: bool,
    now: u64,
)
    requires
        model.stage is Looking,
    ensures
        !model.after(
            LoopReply::Looked { changed, requested, published, device_io_allowed, now },
        ).0.reconcile,
{
}

/// A waiting loop wakes no later than its first delayed link falls due, and sets
/// no deadline while a receiver is wanted exclusively.
pub proof fn a_wait_ends_when_a_link_falls_due(
    model: LoopModel,
    changed: bool,
    requested: bool,
    published: Seq<LinkView>,
    device_io_allowed: bool,
    now: u64,
    deadline: Option<u64>,
    i: int,
)
    requires
        model.after(
            LoopReply::Looked { changed, requested, published, device_io_allowed, now },
        ).1 == (LoopStep::Wait { deadline }),
    ensures
        requested || !device_io_allowed ==> deadline is None,
        !requested && device_io_allowed && 0 <= i < model.state.restart_after.len() ==> (deadline
            matches Some(first) && first <= model.state.restart_after[i].1),
        deadline matches Some(first) ==> exists|k: int|
            0 <= k < model.state.restart_after.len() && (#[trigger] model.state.restart_after[k]).1
                == first,
{
    the_deadline_is_the_earliest_delay(model.state.restart_after);
}

} // verus!
