//! What holds of the session manager over any number of operations.

use vstd::prelude::*;

use crate::host_switch::request::HostSwitchCaptureMode;
use crate::manager::{
    delays_none_of, earliest, generation_after, is_delayed, is_running, serves, startable,
    ManagerModel,
};
use crate::seqs::filtered_items_pass;
use crate::watcher::{capture_mode, generation_index, remembered, LinkView, SessionView};

verus! {

/// No link has two sessions.
pub open spec fn one_session_each(sessions: Seq<SessionView>) -> bool {
    forall|i: int, j: int|
        0 <= i < j < sessions.len() ==> (#[trigger] sessions[i]).link != (
        #[trigger] sessions[j]).link
}

/// No two sessions share a generation, and none is ahead of the count.
pub open spec fn generations_tell_apart(model: ManagerModel) -> bool {
    &&& forall|i: int, j: int|
        0 <= i < j < model.sessions.len() ==> (#[trigger] model.sessions[i]).generation != (
        #[trigger] model.sessions[j]).generation
    &&& forall|i: int|
        0 <= i < model.sessions.len() ==> (#[trigger] model.sessions[i]).generation
            <= model.next_generation
}

proof fn filtering_keeps_sessions_apart(model: ManagerModel, keep: spec_fn(SessionView) -> bool)
    ensures
        ({
            let left = ManagerModel { sessions: model.sessions.filter(keep), ..model };
            &&& one_session_each(model.sessions) ==> one_session_each(left.sessions)
            &&& generations_tell_apart(model) ==> generations_tell_apart(left)
        }),
    decreases model.sessions.len(),
{
    reveal(Seq::filter);
    let sessions = model.sessions;
    if sessions.len() > 0 {
        let before = ManagerModel { sessions: sessions.drop_last(), ..model };
        filtering_keeps_sessions_apart(before, keep);
        let rest = before.sessions.filter(keep);
        assert forall|k: int| 0 <= k < rest.len() implies exists|m: int|
            0 <= m < sessions.len() - 1 && sessions[m] == #[trigger] rest[k] by {
            filtered_items_pass(before.sessions, keep);
            assert(rest.contains(rest[k]));
            let m = choose|m: int|
                0 <= m < before.sessions.len() && before.sessions[m] == rest[k];
            assert(sessions[m] == rest[k]);
        }
        if one_session_each(sessions) {
            assert(one_session_each(before.sessions)) by {
                assert forall|i: int, j: int|
                    0 <= i < j < before.sessions.len() implies (
                #[trigger] before.sessions[i]).link != (#[trigger] before.sessions[j]).link by {
                    assert(sessions[i].link != sessions[j].link);
                }
            }
        }
        if generations_tell_apart(model) {
            assert(generations_tell_apart(before)) by {
                assert forall|i: int, j: int|
                    0 <= i < j < before.sessions.len() implies (
                #[trigger] before.sessions[i]).generation != (
                #[trigger] before.sessions[j]).generation by {
                    assert(sessions[i].generation != sessions[j].generation);
                }
                assert forall|i: int|
                    0 <= i < before.sessions.len() implies (
                #[trigger] before.sessions[i]).generation <= model.next_generation by {
                    assert(sessions[i].generation <= model.next_generation);
                }
            }
        }
    }
}

/// The links that a reconciliation starts are wanted, distinct, and neither
/// running nor delayed; every other wanted link runs or is delayed.
pub proof fn startable_links_are_new(
    sessions: Seq<SessionView>,
    delays: Seq<(LinkView, u64)>,
    wanted: Seq<LinkView>,
    now: u64,
)
    ensures
        ({
            let starting = startable(sessions, delays, wanted, now);
            &&& forall|i: int, j: int|
                0 <= i < j < starting.len() ==> #[trigger] starting[i] != #[trigger] starting[j]
            &&& forall|i: int|
                0 <= i < starting.len() ==> wanted.contains(#[trigger] starting[i]) && !is_running(
                    sessions,
                    starting[i],
                ) && !is_delayed(delays, starting[i], now)
            &&& forall|k: int|
                0 <= k < wanted.len() ==> is_running(sessions, #[trigger] wanted[k]) || is_delayed(
                    delays,
                    wanted[k],
                    now,
                ) || starting.contains(wanted[k])
        }),
    decreases wanted.len(),
{
    if wanted.len() > 0 {
        startable_links_are_new(sessions, delays, wanted.drop_last(), now);
        let before = startable(sessions, delays, wanted.drop_last(), now);
        let starting = startable(sessions, delays, wanted, now);
        assert forall|i: int| 0 <= i < starting.len() implies wanted.contains(
            #[trigger] starting[i],
        ) && !is_running(sessions, starting[i]) && !is_delayed(delays, starting[i], now) by {
            if i < before.len() {
                assert(starting[i] == before[i]);
                assert(wanted.drop_last().contains(before[i]));
                let m = choose|m: int|
                    0 <= m < wanted.drop_last().len() && wanted.drop_last()[m] == before[i];
                assert(wanted[m] == starting[i]);
            } else {
                assert(wanted[wanted.len() - 1] == starting[i]);
            }
        }
        assert forall|k: int| 0 <= k < wanted.len() implies is_running(
            sessions,
            #[trigger] wanted[k],
        ) || is_delayed(delays, wanted[k], now) || starting.contains(wanted[k]) by {
            if k < wanted.len() - 1 {
                assert(wanted.drop_last()[k] == wanted[k]);
                if before.contains(wanted[k]) {
                    let m = choose|m: int| 0 <= m < before.len() && before[m] == wanted[k];
                    assert(starting[m] == wanted[k]);
                }
            } else if starting.len() > before.len() {
                assert(starting[before.len() as int] == wanted[k]);
            }
        }
        assert forall|i: int, j: int|
            0 <= i < j < starting.len() implies #[trigger] starting[i] != #[trigger] starting[j] by {
            assert(before[i] == starting[i]);
            if j < before.len() {
                assert(before[j] == starting[j]);
            } else {
                assert(!before.contains(starting[j]));
            }
        }
    }
}

/// A reconciliation keeps at most one session per link, and every session that
/// runs afterwards serves a wanted link, however many leases were granted.
pub proof fn a_reconciliation_runs_each_wanted_link_at_most_once(
    model: ManagerModel,
    requested: bool,
    published: Seq<LinkView>,
    granted: int,
    now: u64,
)
    requires
        one_session_each(model.sessions),
        ({
            let kept = model.trimmed(requested, published);
            let wanted = ManagerModel::wanted(requested, published);
            0 <= granted <= startable(kept.sessions, kept.restart_after, wanted, now).len()
        }),
    ensures
        ({
            let kept = model.trimmed(requested, published);
            let wanted = ManagerModel::wanted(requested, published);
            let starting = startable(kept.sessions, kept.restart_after, wanted, now);
            let after = kept.after_starts(starting, granted, now);
            &&& one_session_each(after.sessions)
            &&& forall|i: int|
                0 <= i < after.sessions.len() ==> wanted.contains(
                    (#[trigger] after.sessions[i]).link,
                )
        }),
{
    let kept = model.trimmed(requested, published);
    let wanted = ManagerModel::wanted(requested, published);
    let starting = startable(kept.sessions, kept.restart_after, wanted, now);
    let after = kept.after_starts(starting, granted, now);
    filtering_keeps_sessions_apart(model, serves(wanted));
    filtered_items_pass(model.sessions, serves(wanted));
    startable_links_are_new(kept.sessions, kept.restart_after, wanted, now);
    let count = kept.sessions.len();
    assert forall|i: int| 0 <= i < after.sessions.len() implies wanted.contains(
        (#[trigger] after.sessions[i]).link,
    ) by {
        if i < count {
            assert(kept.sessions.contains(kept.sessions[i]));
        } else {
            assert(after.sessions[i].link == starting[i - count]);
        }
    }
    assert forall|i: int, j: int| 0 <= i < j < after.sessions.len() implies (
    #[trigger] after.sessions[i]).link != (#[trigger] after.sessions[j]).link by {
        if j < count {
            assert(kept.sessions[i].link != kept.sessions[j].link);
        } else if i < count {
            assert(kept.sessions[i] == after.sessions[i]);
            assert(!is_running(kept.sessions, starting[j - count]));
        } else {
            assert(starting[i - count] != starting[j - count]);
        }
    }
}

/// Where every lease is granted, a reconciliation leaves every wanted link with
/// a session or with a delay that is still pending.
pub proof fn a_granted_reconciliation_serves_every_wanted_link(
    model: ManagerModel,
    requested: bool,
    published: Seq<LinkView>,
    link: LinkView,
    now: u64,
)
    requires
        ManagerModel::wanted(requested, published).contains(link),
    ensures
        ({
            let kept = model.trimmed(requested, published);
            let wanted = ManagerModel::wanted(requested, published);
            let starting = startable(kept.sessions, kept.restart_after, wanted, now);
            let after = kept.after_starts(starting, starting.len() as int, now);
            is_running(after.sessions, link) || is_delayed(after.restart_after, link, now)
        }),
{
    let kept = model.trimmed(requested, published);
    let wanted = ManagerModel::wanted(requested, published);
    let starting = startable(kept.sessions, kept.restart_after, wanted, now);
    let after = kept.after_starts(starting, starting.len() as int, now);
    startable_links_are_new(kept.sessions, kept.restart_after, wanted, now);
    let k = choose|k: int| 0 <= k < wanted.len() && wanted[k] == link;
    assert(wanted[k] == link);
    if is_running(kept.sessions, link) {
        let i = choose|i: int|
            0 <= i < kept.sessions.len() && (#[trigger] kept.sessions[i]).link == link;
        assert(after.sessions[i] == kept.sessions[i]);
    } else if starting.contains(link) {
        let m = choose|m: int| 0 <= m < starting.len() && starting[m] == link;
        assert(after.sessions[kept.sessions.len() + m].link == link);
    } else {
        let i = choose|i: int|
            0 <= i < kept.restart_after.len() && (#[trigger] kept.restart_after[i]).0 == link
                && kept.restart_after[i].1 > now;
        let delay = kept.restart_after[i];
        let tried = starting.take(starting.len() as int);
        assert(tried =~= starting);
        filtered_items_pass(kept.restart_after, delays_none_of(tried));
        assert(kept.restart_after.contains(delay));
        assert(after.restart_after.contains(delay));
        let m = choose|m: int|
            0 <= m < after.restart_after.len() && after.restart_after[m] == delay;
        assert(after.restart_after[m].0 == link && after.restart_after[m].1 > now);
    }
}

/// The manager never reuses the generation of a live session, as long as its
/// 64-bit count of sessions does not overflow.
pub proof fn generations_stay_distinct(
    model: ManagerModel,
    starting: Seq<LinkView>,
    granted: int,
    now: u64,
)
    requires
        generations_tell_apart(model),
        0 <= granted <= starting.len(),
        model.next_generation + granted <= u64::MAX,
    ensures
        generations_tell_apart(model.after_starts(starting, granted, now)),
{
    let after = model.after_starts(starting, granted, now);
    let count = model.sessions.len();
    assert forall|i: int| 0 <= i < granted implies #[trigger] generation_after(
        model.next_generation,
        i + 1,
    ) == model.next_generation + i + 1 by {}
    assert forall|i: int| count <= i < after.sessions.len() implies (
    #[trigger] after.sessions[i]).generation == model.next_generation + (i - count) + 1 by {
        assert(after.sessions[i].generation == generation_after(
            model.next_generation,
            (i - count) + 1,
        ));
    }
    assert(after.next_generation == model.next_generation + granted);
    assert forall|i: int| 0 <= i < after.sessions.len() implies (
    #[trigger] after.sessions[i]).generation <= after.next_generation by {
        if i < count {
            assert(after.sessions[i] == model.sessions[i]);
        }
    }
    assert forall|i: int, j: int| 0 <= i < j < after.sessions.len() implies (
    #[trigger] after.sessions[i]).generation != (#[trigger] after.sessions[j]).generation by {
        if i < count {
            assert(after.sessions[i] == model.sessions[i]);
        }
        if j < count {
            assert(after.sessions[j] == model.sessions[j]);
        }
    }
}

/// Stopping unwanted sessions keeps links and generations apart.
pub proof fn trimming_keeps_sessions_apart(
    model: ManagerModel,
    requested: bool,
    published: Seq<LinkView>,
)
    ensures
        one_session_each(model.sessions) ==> one_session_each(
            model.trimmed(requested, published).sessions,
        ),
        generations_tell_apart(model) ==> generations_tell_apart(
            model.trimmed(requested, published),
        ),
{
    let keep = serves(ManagerModel::wanted(requested, published));
    filtering_keeps_sessions_apart(model, keep);
    let left = ManagerModel { sessions: model.sessions.filter(keep), ..model };
    let trimmed = model.trimmed(requested, published);
    assert(trimmed.sessions == left.sessions);
    if generations_tell_apart(model) {
        assert forall|i: int, j: int| 0 <= i < j < trimmed.sessions.len() implies (
        #[trigger] trimmed.sessions[i]).generation != (
        #[trigger] trimmed.sessions[j]).generation by {
            assert(left.sessions[i].generation != left.sessions[j].generation);
        }
        assert forall|i: int| 0 <= i < trimmed.sessions.len() implies (
        #[trigger] trimmed.sessions[i]).generation <= trimmed.next_generation by {
            assert(left.sessions[i].generation <= left.next_generation);
        }
    }
}

/// A session is found by its generation, and so a completion that carries the
/// generation of no live session is found nowhere.
pub proof fn a_completion_finds_its_own_session_only(
    sessions: Seq<SessionView>,
    generation: u64,
)
    ensures
        match generation_index(sessions, generation) {
            Some(index) => {
                &&& 0 <= index < sessions.len()
                &&& sessions[index].generation == generation
                &&& forall|k: int|
                    0 <= k < index ==> (#[trigger] sessions[k]).generation != generation
            },
            None => forall|k: int|
                0 <= k < sessions.len() ==> (#[trigger] sessions[k]).generation != generation,
        },
    decreases sessions.len(),
{
    if sessions.len() > 0 {
        let before = sessions.drop_last();
        a_completion_finds_its_own_session_only(before, generation);
        assert forall|k: int| 0 <= k < before.len() implies #[trigger] sessions[k]
            == before[k] by {}
    }
}

/// A link whose session ended without a request is not started again before its
/// delay is over.
pub proof fn an_ended_link_waits(
    model: ManagerModel,
    link: LinkView,
    wanted: Seq<LinkView>,
    ended: u64,
    now: u64,
)
    requires
        ended + crate::watcher::RETRY_DELAY <= u64::MAX,
        now < ended + crate::watcher::RETRY_DELAY,
    ensures
        ({
            let after = model.after_completion(link, None, true, ended);
            !startable(after.sessions, after.restart_after, wanted, now).contains(link)
        }),
{
    let after = model.after_completion(link, None, true, ended);
    startable_links_are_new(after.sessions, after.restart_after, wanted, now);
    let last = after.restart_after.len() - 1;
    assert(after.restart_after[last].0 == link && after.restart_after[last].1 > now);
    assert(is_delayed(after.restart_after, link, now));
}

/// The deadline of a manager is one of its delays, and none is earlier.
pub proof fn the_deadline_is_the_earliest_delay(delays: Seq<(LinkView, u64)>)
    ensures
        match earliest(delays) {
            Some(first) => {
                &&& exists|i: int| 0 <= i < delays.len() && (#[trigger] delays[i]).1 == first
                &&& forall|i: int| 0 <= i < delays.len() ==> first <= (#[trigger] delays[i]).1
            },
            None => delays.len() == 0,
        },
    decreases delays.len(),
{
    if delays.len() > 0 {
        let before = delays.drop_last();
        the_deadline_is_the_earliest_delay(before);
        assert forall|i: int| 0 <= i < before.len() implies #[trigger] delays[i] == before[i] by {}
        let last = delays.len() - 1;
        if earliest(delays) == Some(delays[last].1) {
            assert(delays[last].1 == earliest(delays)->Some_0);
        } else {
            let i = choose|i: int|
                0 <= i < before.len() && (#[trigger] before[i]).1 == earliest(before)->Some_0;
            assert(delays[i].1 == earliest(delays)->Some_0);
        }
    }
}

/// Remembering a keyboard switches that keyboard, and no other, to capture by
/// announcements, and remembering it again changes nothing.
pub proof fn remembering_concerns_one_keyboard(
    keys: Seq<Seq<char>>,
    key: Seq<char>,
    other: Seq<char>,
)
    ensures
        capture_mode(remembered(keys, key), key) == HostSwitchCaptureMode::ChangeHostAnnouncement,
        other != key ==> capture_mode(remembered(keys, key), other) == capture_mode(keys, other),
        remembered(remembered(keys, key), key) == remembered(keys, key),
{
    let known = remembered(keys, key);
    if !keys.contains(key) {
        assert(known[keys.len() as int] == key);
    }
    assert(known.contains(key));
    if keys.contains(other) {
        let i = choose|i: int| 0 <= i < keys.len() && keys[i] == other;
        assert(known[i] == other);
    }
    if other != key && known.contains(other) {
        let i = choose|i: int| 0 <= i < known.len() && known[i] == other;
        assert(keys[i] == other);
    }
}

} // verus!
