//! Which capture sessions run, and when ended ones are taken up again.

use vstd::prelude::*;
use vstd::string::*;

use crate::host_switch::request::{HostSwitchCaptureMode, HostSwitchRequest};
use crate::seqs::{filter_takes_one_more, views};
use crate::watcher::{
    capture_mode, capture_mode_for, has_link, remember_announcement_keyboard, remembered,
    request_view, AcceptedCompletion, HostSwitchLink, LinkView, ReceiverRequestState,
    RunningSession, SessionView, RETRY_DELAY,
};

verus! {

/// Running sessions, delayed links, and what was learned about keyboards.
///
/// Instants are milliseconds on one monotonic clock.
#[derive(Debug)]
pub struct HostSwitchManagerState {
    /// Sessions that were started and not yet completed.
    pub sessions: Vec<RunningSession>,
    /// Number of the session started last.
    pub next_generation: u64,
    /// Links that wait, and until when.
    pub restart_after: Vec<(HostSwitchLink, u64)>,
    /// Keys of keyboards whose announcements were observed.
    pub announcement_keyboards: Vec<String>,
}

/// Mathematical content of a [`HostSwitchManagerState`].
pub struct ManagerModel {
    /// See [`HostSwitchManagerState::sessions`].
    pub sessions: Seq<SessionView>,
    /// See [`HostSwitchManagerState::next_generation`].
    pub next_generation: u64,
    /// See [`HostSwitchManagerState::restart_after`].
    pub restart_after: Seq<(LinkView, u64)>,
    /// See [`HostSwitchManagerState::announcement_keyboards`].
    pub announcement_keyboards: Seq<Seq<char>>,
}

impl View for HostSwitchManagerState {
    type V = ManagerModel;

    open spec fn view(&self) -> ManagerModel {
        ManagerModel {
            sessions: views(self.sessions@),
            next_generation: self.next_generation,
            restart_after: views(self.restart_after@),
            announcement_keyboards: views(self.announcement_keyboards@),
        }
    }
}

/// A session to start.
#[derive(Debug)]
pub struct SessionStart {
    /// Link that the session serves.
    pub link: HostSwitchLink,
    /// Number of the session.
    pub generation: u64,
    /// How the keyboard is captured.
    pub capture_mode: HostSwitchCaptureMode,
}

/// Mathematical content of a [`SessionStart`].
pub struct StartView {
    /// See [`SessionStart::link`].
    pub link: LinkView,
    /// See [`SessionStart::generation`].
    pub generation: u64,
    /// See [`SessionStart::capture_mode`].
    pub capture_mode: HostSwitchCaptureMode,
}

impl View for SessionStart {
    type V = StartView;

    open spec fn view(&self) -> StartView {
        StartView {
            link: self.link@,
            generation: self.generation,
            capture_mode: self.capture_mode,
        }
    }
}

/// What a reconciliation leaves to do.
#[derive(Debug)]
pub struct Reconciliation {
    /// Sessions to stop gracefully, one after the other.
    pub stopped: Vec<RunningSession>,
    /// Links to start a session for, as far as receiver leases can be had.
    pub starting: Vec<HostSwitchLink>,
}

/// What an accepted completion leaves to do.
#[derive(Debug)]
pub enum CompletionAction {
    /// Stop every session, then move the linked devices.
    RunTransition {
        /// Link to serve.
        link: HostSwitchLink,
        /// What was requested.
        request: HostSwitchRequest,
    },
    /// Nothing but to reconcile again.
    Reconcile,
}

/// Whether `link` has a session.
pub open spec fn is_running(sessions: Seq<SessionView>, link: LinkView) -> bool {
    exists|i: int| 0 <= i < sessions.len() && (#[trigger] sessions[i]).link == link
}

/// Whether `link` waits beyond `now`.
pub open spec fn is_delayed(delays: Seq<(LinkView, u64)>, link: LinkView, now: u64) -> bool {
    exists|i: int|
        0 <= i < delays.len() && (#[trigger] delays[i]).0 == link && delays[i].1 > now
}

/// The links without a session and without a pending delay, each once, in the
/// order in which they are wanted.
pub open spec fn startable(
    sessions: Seq<SessionView>,
    delays: Seq<(LinkView, u64)>,
    wanted: Seq<LinkView>,
    now: u64,
) -> Seq<LinkView>
    decreases wanted.len(),
{
    if wanted.len() == 0 {
        Seq::empty()
    } else {
        let before = startable(sessions, delays, wanted.drop_last(), now);
        let link = wanted.last();
        if is_running(sessions, link) || is_delayed(delays, link, now) || before.contains(link) {
            before
        } else {
            before.push(link)
        }
    }
}

/// Sessions that serve one of these links.
pub open spec fn serves(links: Seq<LinkView>) -> spec_fn(SessionView) -> bool {
    |session: SessionView| links.contains(session.link)
}

/// Sessions that serve none of these links.
pub open spec fn serves_none(links: Seq<LinkView>) -> spec_fn(SessionView) -> bool {
    |session: SessionView| !links.contains(session.link)
}

/// Delays of one of these links.
pub open spec fn delays_one_of(links: Seq<LinkView>) -> spec_fn((LinkView, u64)) -> bool {
    |delay: (LinkView, u64)| links.contains(delay.0)
}

/// Delays of none of these links.
pub open spec fn delays_none_of(links: Seq<LinkView>) -> spec_fn((LinkView, u64)) -> bool {
    |delay: (LinkView, u64)| !links.contains(delay.0)
}

/// The earliest of some deadlines.
pub open spec fn earliest(delays: Seq<(LinkView, u64)>) -> Option<u64>
    decreases delays.len(),
{
    if delays.len() == 0 {
        None
    } else {
        match earliest(delays.drop_last()) {
            Some(first) if first <= delays.last().1 => Some(first),
            _ => Some(delays.last().1),
        }
    }
}

/// The generation that follows `count` starts.
pub open spec fn generation_after(generation: u64, count: int) -> u64 {
    ((generation + count) % 0x1_0000_0000_0000_0000) as u64
}

/// The sessions that start for the first `granted` of some links.
pub open spec fn starts(model: ManagerModel, starting: Seq<LinkView>, granted: int) -> Seq<
    StartView,
> {
    Seq::new(
        granted as nat,
        |i: int|
            StartView {
                link: starting[i],
                generation: generation_after(model.next_generation, i + 1),
                capture_mode: capture_mode(
                    model.announcement_keyboards,
                    starting[i].keyboard_key,
                ),
            },
    )
}

/// The sessions that some starts amount to.
pub open spec fn started(starts: Seq<StartView>) -> Seq<SessionView> {
    Seq::new(
        starts.len(),
        |i: int| SessionView { link: starts[i].link, generation: starts[i].generation },
    )
}

impl ManagerModel {
    /// The links that are wanted while `requested` says whether anything waits
    /// for a receiver.
    pub open spec fn wanted(requested: bool, published: Seq<LinkView>) -> Seq<LinkView> {
        if requested {
            Seq::empty()
        } else {
            published
        }
    }

    /// The state once unwanted sessions and delays of unpublished links are gone.
    pub open spec fn trimmed(self, requested: bool, published: Seq<LinkView>) -> ManagerModel {
        ManagerModel {
            sessions: self.sessions.filter(serves(ManagerModel::wanted(requested, published))),
            restart_after: self.restart_after.filter(delays_one_of(published)),
            ..self
        }
    }

    /// The state once `granted` of these links have got a session. The first
    /// link without a lease waits, and those behind it are left as they are.
    pub open spec fn after_starts(self, starting: Seq<LinkView>, granted: int, now: u64)
        -> ManagerModel {
        let tried = if granted < starting.len() {
            granted + 1
        } else {
            granted
        };
        let kept = self.restart_after.filter(delays_none_of(starting.take(tried)));
        ManagerModel {
            sessions: self.sessions + started(starts(self, starting, granted)),
            next_generation: generation_after(self.next_generation, granted),
            restart_after: if granted < starting.len() {
                kept.push((starting[granted], (now + RETRY_DELAY) as u64))
            } else {
                kept
            },
            ..self
        }
    }

    /// The state once a completion was taken in.
    pub open spec fn after_completion(
        self,
        completed: LinkView,
        request: Option<(LinkView, HostSwitchRequest)>,
        device_io_allowed: bool,
        now: u64,
    ) -> ManagerModel {
        match request {
            Some((link, request)) => if request.keyboard_transition is AlreadyDeparting {
                ManagerModel {
                    announcement_keyboards: remembered(
                        self.announcement_keyboards,
                        link.keyboard_key,
                    ),
                    ..self
                }
            } else {
                self
            },
            None => if device_io_allowed {
                ManagerModel {
                    restart_after: self.restart_after.push(
                        (completed, (now + RETRY_DELAY) as u64),
                    ),
                    ..self
                }
            } else {
                self
            },
        }
    }
}

impl HostSwitchManagerState {
    /// A manager that runs nothing and knows nothing.
    pub fn new() -> (state: Self)
        ensures
            state@ == (ManagerModel {
                sessions: Seq::empty(),
                next_generation: 0,
                restart_after: Seq::empty(),
                announcement_keyboards: Seq::empty(),
            }),
    {
        let state = HostSwitchManagerState {
            sessions: Vec::new(),
            next_generation: 0,
            restart_after: Vec::new(),
            announcement_keyboards: Vec::new(),
        };
        assert(state@.sessions =~= Seq::empty());
        assert(state@.restart_after =~= Seq::empty());
        assert(state@.announcement_keyboards =~= Seq::empty());
        state
    }

    /// When the next delayed link falls due, unless retries are dormant because
    /// a receiver is wanted exclusively or devices must be left alone.
    pub fn deadline(&self, requests: ReceiverRequestState, device_io_allowed: bool) -> (deadline:
        Option<u64>)
        ensures
            deadline == if requests.outstanding > 0 || !device_io_allowed {
                None
            } else {
                earliest(self@.restart_after)
            },
    {
        if requests.any() || !device_io_allowed {
            return None;
        }
        let ghost delays = self@.restart_after;
        let mut first: Option<u64> = None;
        let mut i: usize = 0;
        while i < self.restart_after.len()
            invariant
                i <= self.restart_after@.len(),
                delays == views(self.restart_after@),
                first == earliest(delays.take(i as int)),
            decreases self.restart_after@.len() - i,
        {
            let due: u64 = self.restart_after[i].1;
            assert(delays.take(i + 1).drop_last() =~= delays.take(i as int));
            assert(delays.take(i + 1).last() == self.restart_after@[i as int]@);
            first = match first {
                Some(earlier) => Some(
                    if earlier <= due {
                        earlier
                    } else {
                        due
                    },
                ),
                None => Some(due),
            };
            i = i + 1;
        }
        assert(delays.take(i as int) =~= delays);
        first
    }

    fn runs(&self, link: &HostSwitchLink) -> (running: bool)
        ensures
            running == is_running(self@.sessions, link@),
    {
        let mut i: usize = 0;
        while i < self.sessions.len()
            invariant
                i <= self.sessions@.len(),
                forall|k: int| 0 <= k < i ==> (#[trigger] self@.sessions[k]).link != link@,
            decreases self.sessions@.len() - i,
        {
            if self.sessions[i].link.same_link(link) {
                assert(self@.sessions[i as int].link == link@);
                return true;
            }
            i = i + 1;
        }
        false
    }

    fn delays(&self, link: &HostSwitchLink, now: u64) -> (delayed: bool)
        ensures
            delayed == is_delayed(self@.restart_after, link@, now),
    {
        let mut i: usize = 0;
        while i < self.restart_after.len()
            invariant
                i <= self.restart_after@.len(),
                forall|k: int|
                    0 <= k < i ==> !((#[trigger] self@.restart_after[k]).0 == link@
                        && self@.restart_after[k].1 > now),
            decreases self.restart_after@.len() - i,
        {
            if self.restart_after[i].0.same_link(link) && self.restart_after[i].1 > now {
                assert(self@.restart_after[i as int].0 == link@);
                return true;
            }
            i = i + 1;
        }
        false
    }

    fn startable_links(&self, wanted: &[HostSwitchLink], now: u64) -> (starting: Vec<
        HostSwitchLink,
    >)
        ensures
            views(starting@) == startable(
                self@.sessions,
                self@.restart_after,
                views(wanted@),
                now,
            ),
    {
        let ghost links = views(wanted@);
        let mut starting: Vec<HostSwitchLink> = Vec::new();
        let mut i: usize = 0;
        assert(views(starting@) =~= Seq::<LinkView>::empty());
        while i < wanted.len()
            invariant
                i <= wanted@.len(),
                links == views(wanted@),
                views(starting@) == startable(
                    self@.sessions,
                    self@.restart_after,
                    links.take(i as int),
                    now,
                ),
            decreases wanted@.len() - i,
        {
            let link = &wanted[i];
            assert(links.take(i + 1).drop_last() =~= links.take(i as int));
            assert(links.take(i + 1).last() == link@);
            if !self.runs(link) && !self.delays(link, now) && !has_link(starting.as_slice(), link)
            {
                let ghost before = starting@;
                starting.push(link.clone());
                assert(views(starting@) =~= views(before).push(link@));
            }
            i = i + 1;
        }
        assert(links.take(i as int) =~= links);
        starting
    }

    /// Takes the sessions out that serve none of the wanted links.
    pub fn stop_unwanted(&mut self, wanted: &[HostSwitchLink]) -> (stopped: Vec<RunningSession>)
        ensures
            final(self)@ == (ManagerModel {
                sessions: old(self)@.sessions.filter(serves(views(wanted@))),
                ..old(self)@
            }),
            views(stopped@) == old(self)@.sessions.filter(serves_none(views(wanted@))),
    {
        let ghost all = self@.sessions;
        let ghost keep = serves(views(wanted@));
        let ghost drop = serves_none(views(wanted@));
        let mut stopped: Vec<RunningSession> = Vec::new();
        let mut index: usize = 0;
        let ghost mut seen: int = 0;
        proof {
            reveal(Seq::filter);
            assert(all.take(0).filter(keep) =~= Seq::<SessionView>::empty());
            assert(all.take(0).filter(drop) =~= Seq::<SessionView>::empty());
            assert(views(stopped@) =~= Seq::<SessionView>::empty());
            assert(views(self.sessions@) =~= all.take(0).filter(keep) + all.skip(0));
        }
        while index < self.sessions.len()
            invariant
                0 <= seen <= all.len(),
                index <= self.sessions@.len(),
                keep == serves(views(wanted@)),
                drop == serves_none(views(wanted@)),
                index == all.take(seen).filter(keep).len(),
                views(self.sessions@) == all.take(seen).filter(keep) + all.skip(seen),
                views(stopped@) == all.take(seen).filter(drop),
                self.next_generation == old(self).next_generation,
                self.restart_after == old(self).restart_after,
                self.announcement_keyboards == old(self).announcement_keyboards,
            decreases all.len() - seen,
        {
            let ghost before = views(self.sessions@);
            let ghost out = views(stopped@);
            proof {
                assert(before.len() == index + (all.len() - seen));
                assert(seen < all.len());
                assert(before[index as int] == all[seen]);
                assert(before[index as int] == self.sessions@[index as int]@);
                filter_takes_one_more(all, seen, keep);
                filter_takes_one_more(all, seen, drop);
            }
            if has_link(wanted, &self.sessions[index].link) {
                index = index + 1;
                assert(before =~= all.take(seen + 1).filter(keep) + all.skip(seen + 1));
            } else {
                let session = self.sessions.remove(index);
                stopped.push(session);
                assert(views(self.sessions@) =~= before.remove(index as int));
                assert(views(self.sessions@) =~= all.take(seen + 1).filter(keep) + all.skip(
                    seen + 1,
                ));
                assert(views(stopped@) =~= out.push(all[seen]));
            }
            proof {
                seen = seen + 1;
            }
        }
        proof {
            assert(seen == all.len());
            assert(all.take(seen) =~= all);
            assert(self@.sessions =~= all.filter(keep));
        }
        stopped
    }

    fn retain_delays(&mut self, links: &[HostSwitchLink], listed: bool)
        ensures
            final(self)@ == (ManagerModel {
                restart_after: old(self)@.restart_after.filter(
                    if listed {
                        delays_one_of(views(links@))
                    } else {
                        delays_none_of(views(links@))
                    },
                ),
                ..old(self)@
            }),
    {
        let ghost all = self@.restart_after;
        let ghost keep = if listed {
            delays_one_of(views(links@))
        } else {
            delays_none_of(views(links@))
        };
        let mut index: usize = 0;
        let ghost mut seen: int = 0;
        proof {
            reveal(Seq::filter);
            assert(all.take(0).filter(keep) =~= Seq::<(LinkView, u64)>::empty());
            assert(views(self.restart_after@) =~= all.take(0).filter(keep) + all.skip(0));
        }
        while index < self.restart_after.len()
            invariant
                0 <= seen <= all.len(),
                index <= self.restart_after@.len(),
                keep == if listed {
                    delays_one_of(views(links@))
                } else {
                    delays_none_of(views(links@))
                },
                index == all.take(seen).filter(keep).len(),
                views(self.restart_after@) == all.take(seen).filter(keep) + all.skip(seen),
                self.next_generation == old(self).next_generation,
                self.sessions == old(self).sessions,
                self.announcement_keyboards == old(self).announcement_keyboards,
            decreases all.len() - seen,
        {
            let ghost before = views(self.restart_after@);
            proof {
                assert(before.len() == index + (all.len() - seen));
                assert(seen < all.len());
                assert(before[index as int] == all[seen]);
                assert(before[index as int] == self.restart_after@[index as int]@);
                filter_takes_one_more(all, seen, keep);
            }
            if has_link(links, &self.restart_after[index].0) == listed {
                index = index + 1;
                assert(before =~= all.take(seen + 1).filter(keep) + all.skip(seen + 1));
            } else {
                let _ = self.restart_after.remove(index);
                assert(views(self.restart_after@) =~= before.remove(index as int));
                assert(views(self.restart_after@) =~= all.take(seen + 1).filter(keep) + all.skip(
                    seen + 1,
                ));
            }
            proof {
                seen = seen + 1;
            }
        }
        proof {
            assert(seen == all.len());
            assert(all.take(seen) =~= all);
            assert(self@.restart_after =~= all.filter(keep));
        }
    }

    /// Fits the running sessions to the published links.
    ///
    /// Armed listeners stay passive while devices must be left alone: fitting
    /// them to an empty or changed set of links would restore firmware controls,
    /// and a retry would reopen the transport.
    pub fn reconcile(
        &mut self,
        requests: ReceiverRequestState,
        published: &[HostSwitchLink],
        device_io_allowed: bool,
        now: u64,
    ) -> (todo: Reconciliation)
        ensures
            !device_io_allowed ==> {
                &&& final(self)@ == old(self)@
                &&& todo.stopped@.len() == 0
                &&& todo.starting@.len() == 0
            },
            device_io_allowed ==> {
                let requested = requests.outstanding > 0;
                let wanted = ManagerModel::wanted(requested, views(published@));
                &&& final(self)@ == old(self)@.trimmed(requested, views(published@))
                &&& views(todo.stopped@) == old(self)@.sessions.filter(serves_none(wanted))
                &&& views(todo.starting@) == startable(
                    final(self)@.sessions,
                    final(self)@.restart_after,
                    wanted,
                    now,
                )
            },
    {
        if !device_io_allowed {
            return Reconciliation { stopped: Vec::new(), starting: Vec::new() };
        }
        if requests.any() {
            let none: Vec<HostSwitchLink> = Vec::new();
            assert(views(none@) =~= Seq::<LinkView>::empty());
            let stopped = self.stop_unwanted(none.as_slice());
            self.retain_delays(published, true);
            let starting = self.startable_links(none.as_slice(), now);
            Reconciliation { stopped, starting }
        } else {
            let stopped = self.stop_unwanted(published);
            self.retain_delays(published, true);
            let starting = self.startable_links(published, now);
            Reconciliation { stopped, starting }
        }
    }

    /// Starts sessions for the first `granted` links of a reconciliation. Where
    /// a link got no receiver lease, it waits.
    pub fn start_sessions(&mut self, starting: &[HostSwitchLink], granted: usize, now: u64)
        -> (begun: Vec<SessionStart>)
        requires
            granted <= starting@.len(),
            granted < starting@.len() ==> now + RETRY_DELAY <= u64::MAX,
        ensures
            final(self)@ == old(self)@.after_starts(views(starting@), granted as int, now),
            views(begun@) == starts(old(self)@, views(starting@), granted as int),
    {
        let ghost links = views(starting@);
        let ghost model = self@;
        let mut tried: Vec<HostSwitchLink> = Vec::new();
        let mut begun: Vec<SessionStart> = Vec::new();
        let mut i: usize = 0;
        proof {
            assert(views(tried@) =~= links.take(0));
            assert(views(begun@) =~= starts(model, links, 0));
            assert(self@.sessions =~= model.sessions + started(starts(model, links, 0)));
            assert(model.next_generation == generation_after(model.next_generation, 0));
        }
        while i < granted
            invariant
                i <= granted <= starting@.len(),
                links == views(starting@),
                views(tried@) == links.take(i as int),
                views(begun@) == starts(model, links, i as int),
                self@ == (ManagerModel {
                    sessions: model.sessions + started(starts(model, links, i as int)),
                    next_generation: generation_after(model.next_generation, i as int),
                    ..model
                }),
            decreases granted - i,
        {
            let ghost tried_before = views(tried@);
            let ghost begun_before = views(begun@);
            let ghost sessions_before = self@.sessions;
            let link = &starting[i];
            let generation = self.next_generation.wrapping_add(1);
            proof {
                next_generation_wraps(model.next_generation, i as int);
                assert(generation == generation_after(model.next_generation, i + 1));
            }
            self.next_generation = generation;
            let mode = capture_mode_for(
                self.announcement_keyboards.as_slice(),
                link.keyboard_key.as_str(),
            );
            self.sessions.push(RunningSession { link: link.clone(), generation });
            begun.push(SessionStart { link: link.clone(), generation, capture_mode: mode });
            tried.push(link.clone());
            proof {
                assert(views(tried@) =~= tried_before.push(link@));
                assert(views(tried@) =~= links.take(i + 1));
                assert(views(begun@) =~= begun_before.push(begun@[i as int]@));
                assert(views(begun@) =~= starts(model, links, i + 1));
                assert(self@.sessions =~= sessions_before.push(
                    SessionView { link: link@, generation },
                ));
                assert(self@.sessions =~= model.sessions + started(starts(model, links, i + 1)));
            }
            i = i + 1;
        }
        if granted < starting.len() {
            let link = &starting[granted];
            let ghost tried_before = views(tried@);
            tried.push(link.clone());
            assert(views(tried@) =~= tried_before.push(link@));
            assert(views(tried@) =~= links.take(granted + 1));
            self.retain_delays(tried.as_slice(), false);
            let ghost kept = self@.restart_after;
            self.restart_after.push((link.clone(), now + RETRY_DELAY));
            assert(self@.restart_after =~= kept.push((link@, (now + RETRY_DELAY) as u64)));
        } else {
            self.retain_delays(tried.as_slice(), false);
        }
        begun
    }

    /// Takes in an accepted completion. A captured request is to be carried out;
    /// a link whose session ended without one waits before the next attempt.
    pub fn complete(&mut self, accepted: AcceptedCompletion, device_io_allowed: bool, now: u64)
        -> (action: CompletionAction)
        requires
            accepted.request is None && device_io_allowed ==> now + RETRY_DELAY <= u64::MAX,
        ensures
            final(self)@ == old(self)@.after_completion(
                accepted.completed.link@,
                request_view(accepted.request),
                device_io_allowed,
                now,
            ),
            match (request_view(accepted.request), action) {
                (
                    Some((expected, asked)),
                    CompletionAction::RunTransition { link, request },
                ) => link@ == expected && request == asked,
                (None, CompletionAction::Reconcile) => true,
                _ => false,
            },
    {
        match accepted.request {
            Some((link, request)) => {
                if request.keyboard_transition.announcement_observed() {
                    remember_announcement_keyboard(
                        &mut self.announcement_keyboards,
                        link.keyboard_key.clone(),
                    );
                }
                CompletionAction::RunTransition { link, request }
            },
            None => {
                if device_io_allowed {
                    let ghost before = self@.restart_after;
                    self.restart_after.push((accepted.completed.link, now + RETRY_DELAY));
                    assert(self@.restart_after =~= before.push(
                        (accepted.completed.link@, (now + RETRY_DELAY) as u64),
                    ));
                }
                CompletionAction::Reconcile
            },
        }
    }

    /// Takes every session out.
    pub fn stop_all(&mut self) -> (stopped: Vec<RunningSession>)
        ensures
            final(self)@ == (ManagerModel { sessions: Seq::empty(), ..old(self)@ }),
            views(stopped@) == old(self)@.sessions,
    {
        let mut stopped: Vec<RunningSession> = Vec::new();
        core::mem::swap(&mut stopped, &mut self.sessions);
        assert(self@.sessions =~= Seq::empty());
        stopped
    }
}

proof fn next_generation_wraps(generation: u64, count: int)
    requires
        0 <= count,
    ensures
        generation_after(generation, count + 1) == (if generation_after(generation, count)
            == u64::MAX {
            0u64
        } else {
            (generation_after(generation, count) + 1) as u64
        }),
{
    let sum = generation + count;
    assert((sum + 1) % 0x1_0000_0000_0000_0000 == if sum % 0x1_0000_0000_0000_0000
        == 0xffff_ffff_ffff_ffff {
        0
    } else {
        sum % 0x1_0000_0000_0000_0000 + 1
    });
}

} // verus!
