//! The loop that keeps sessions fitted to the published links and carries out
//! what they capture.

use vstd::prelude::*;

use crate::host_switch::request::HostSwitchRequest;
use crate::manager::{
    earliest, serves_none, startable, starts, CompletionAction, HostSwitchManagerState,
    ManagerModel, SessionStart, StartView,
};
use crate::seqs::views;
use crate::watcher::{
    accept_completion, generation_index, request_view, HostSwitchLink, LinkView,
    ReceiverRequestState, RunningSession, SessionCompletion, SessionView, RETRY_DELAY,
};

verus! {

/// What the loop is about.
#[derive(Debug)]
pub enum ManagerStage {
    /// Looking at the links, the requests and the clock.
    Looking,
    /// Waiting for receiver leases.
    Leasing {
        /// Links that want one each, in order.
        starting: Vec<HostSwitchLink>,
        /// When the reconciliation began.
        at: u64,
    },
    /// Waiting for something to happen.
    Waiting,
    /// Waiting until devices may be talked to.
    AwaitingIo {
        /// Link to serve then.
        link: HostSwitchLink,
        /// What was requested.
        request: HostSwitchRequest,
    },
    /// Moving linked devices.
    Transitioning,
    /// Nothing more is asked.
    Ended,
}

/// Mathematical content of a [`ManagerStage`].
pub enum StageView {
    /// See [`ManagerStage::Looking`].
    Looking,
    /// See [`ManagerStage::Leasing`].
    Leasing { starting: Seq<LinkView>, at: u64 },
    /// See [`ManagerStage::Waiting`].
    Waiting,
    /// See [`ManagerStage::AwaitingIo`].
    AwaitingIo { link: LinkView, request: HostSwitchRequest },
    /// See [`ManagerStage::Transitioning`].
    Transitioning,
    /// See [`ManagerStage::Ended`].
    Ended,
}

impl View for ManagerStage {
    type V = StageView;

    open spec fn view(&self) -> StageView {
        match *self {
            ManagerStage::Looking => StageView::Looking,
            ManagerStage::Leasing { starting, at } => StageView::Leasing {
                starting: views(starting@),
                at,
            },
            ManagerStage::Waiting => StageView::Waiting,
            ManagerStage::AwaitingIo { link, request } => StageView::AwaitingIo {
                link: link@,
                request,
            },
            ManagerStage::Transitioning => StageView::Transitioning,
            ManagerStage::Ended => StageView::Ended,
        }
    }
}

/// The session manager.
#[derive(Debug)]
pub struct HostSwitchManager {
    /// Running sessions and delayed links.
    state: HostSwitchManagerState,
    /// Whether the sessions are to be fitted again.
    reconcile: bool,
    /// What the loop is about.
    stage: ManagerStage,
}

/// Mathematical content of a [`HostSwitchManager`].
pub struct LoopModel {
    /// See [`HostSwitchManager::state`].
    pub state: ManagerModel,
    /// See [`HostSwitchManager::reconcile`].
    pub reconcile: bool,
    /// See [`HostSwitchManager::stage`].
    pub stage: StageView,
}

impl View for HostSwitchManager {
    type V = LoopModel;

    closed spec fn view(&self) -> LoopModel {
        LoopModel { state: self.state@, reconcile: self.reconcile, stage: self.stage@ }
    }
}

/// What came of the last action, or happened while waiting. Instants are
/// milliseconds on one monotonic clock.
#[derive(Debug)]
pub enum ManagerEvent {
    /// What a look showed.
    Looked {
        /// Whether the links or the requests changed since the last look.
        changed: bool,
        /// Requests for exclusive access.
        requests: ReceiverRequestState,
        /// The published links.
        published: Vec<HostSwitchLink>,
        /// Whether devices may be talked to.
        device_io_allowed: bool,
        /// The time.
        now: u64,
    },
    /// The first so many links got their leases.
    Leased {
        /// How many.
        granted: usize,
    },
    /// A session reported its completion.
    Completed {
        /// What it reported.
        completion: SessionCompletion,
        /// Whether devices may be talked to.
        device_io_allowed: bool,
        /// The time.
        now: u64,
    },
    /// The published links changed, or will change no more.
    LinksChanged {
        /// No links will be published any more.
        closed: bool,
    },
    /// The requests for exclusive access changed, or will change no more.
    RequestsChanged {
        /// No requests will be published any more.
        closed: bool,
    },
    /// Access to devices was allowed or suspended; `None` once nothing decides
    /// that any more.
    DeviceIoChanged {
        /// Whether it is allowed now.
        allowed: Option<bool>,
    },
    /// The deadline passed.
    DeadlineReached,
    /// Devices may be talked to, or never will be.
    IoAwaited {
        /// Whether they may.
        resumed: bool,
    },
    /// The linked devices were moved as far as possible.
    TransitionEnded,
}

/// Mathematical content of a [`ManagerEvent`].
pub enum LoopReply {
    /// See [`ManagerEvent::Looked`].
    Looked {
        changed: bool,
        requested: bool,
        published: Seq<LinkView>,
        device_io_allowed: bool,
        now: u64,
    },
    /// See [`ManagerEvent::Leased`].
    Leased { granted: nat },
    /// See [`ManagerEvent::Completed`].
    Completed {
        generation: u64,
        request: Option<(LinkView, HostSwitchRequest)>,
        device_io_allowed: bool,
        now: u64,
    },
    /// See [`ManagerEvent::LinksChanged`].
    LinksChanged { closed: bool },
    /// See [`ManagerEvent::RequestsChanged`].
    RequestsChanged { closed: bool },
    /// See [`ManagerEvent::DeviceIoChanged`].
    DeviceIoChanged { allowed: Option<bool> },
    /// See [`ManagerEvent::DeadlineReached`].
    DeadlineReached,
    /// See [`ManagerEvent::IoAwaited`].
    IoAwaited { resumed: bool },
    /// See [`ManagerEvent::TransitionEnded`].
    TransitionEnded,
}

impl View for ManagerEvent {
    type V = LoopReply;

    open spec fn view(&self) -> LoopReply {
        match *self {
            ManagerEvent::Looked { changed, requests, published, device_io_allowed, now } =>
                LoopReply::Looked {
                    changed,
                    requested: requests.outstanding > 0,
                    published: views(published@),
                    device_io_allowed,
                    now,
                },
            ManagerEvent::Leased { granted } => LoopReply::Leased { granted: granted as nat },
            ManagerEvent::Completed { completion, device_io_allowed, now } =>
                LoopReply::Completed {
                    generation: completion.generation,
                    request: request_view(completion.request),
                    device_io_allowed,
                    now,
                },
            ManagerEvent::LinksChanged { closed } => LoopReply::LinksChanged { closed },
            ManagerEvent::RequestsChanged { closed } => LoopReply::RequestsChanged { closed },
            ManagerEvent::DeviceIoChanged { allowed } => LoopReply::DeviceIoChanged { allowed },
            ManagerEvent::DeadlineReached => LoopReply::DeadlineReached,
            ManagerEvent::IoAwaited { resumed } => LoopReply::IoAwaited { resumed },
            ManagerEvent::TransitionEnded => LoopReply::TransitionEnded,
        }
    }
}

/// What to do next.
#[derive(Debug)]
pub enum ManagerAction {
    /// Look at the links, the requests and the clock.
    Look,
    /// Stop these sessions gracefully, one after the other, and then acquire up
    /// to so many leases, until one is denied.
    StopAndLease {
        /// Sessions to stop.
        stopped: Vec<RunningSession>,
        /// How many leases are wanted.
        wanted: usize,
    },
    /// Start these sessions, each with one of the leases, and look again.
    Start(Vec<SessionStart>),
    /// Wait for something to happen, until this deadline at most.
    Wait {
        /// When the next delayed link falls due.
        deadline: Option<u64>,
    },
    /// Join the completed session and look again.
    Join {
        /// The session.
        completed: RunningSession,
    },
    /// Join the completed session and wait until devices may be talked to.
    JoinAndAwaitIo {
        /// The session.
        completed: RunningSession,
    },
    /// Stop these sessions gracefully, then move the linked devices.
    StopAndTransition {
        /// Sessions to stop.
        stopped: Vec<RunningSession>,
        /// Link to serve.
        link: HostSwitchLink,
        /// What was requested.
        request: HostSwitchRequest,
    },
    /// The loop ended.
    Finish,
    /// The event answers nothing that was asked.
    Ignore,
}

/// Mathematical content of a [`ManagerAction`].
pub enum LoopStep {
    /// See [`ManagerAction::Look`].
    Look,
    /// See [`ManagerAction::StopAndLease`].
    StopAndLease { stopped: Seq<SessionView>, wanted: int },
    /// See [`ManagerAction::Start`].
    Start(Seq<StartView>),
    /// See [`ManagerAction::Wait`].
    Wait { deadline: Option<u64> },
    /// See [`ManagerAction::Join`].
    Join { completed: SessionView },
    /// See [`ManagerAction::JoinAndAwaitIo`].
    JoinAndAwaitIo { completed: SessionView },
    /// See [`ManagerAction::StopAndTransition`].
    StopAndTransition { stopped: Seq<SessionView>, link: LinkView, request: HostSwitchRequest },
    /// See [`ManagerAction::Finish`].
    Finish,
    /// See [`ManagerAction::Ignore`].
    Ignore,
}

impl View for ManagerAction {
    type V = LoopStep;

    open spec fn view(&self) -> LoopStep {
        match *self {
            ManagerAction::Look => LoopStep::Look,
            ManagerAction::StopAndLease { stopped, wanted } => LoopStep::StopAndLease {
                stopped: views(stopped@),
                wanted: wanted as int,
            },
            ManagerAction::Start(begun) => LoopStep::Start(views(begun@)),
            ManagerAction::Wait { deadline } => LoopStep::Wait { deadline },
            ManagerAction::Join { completed } => LoopStep::Join { completed: completed@ },
            ManagerAction::JoinAndAwaitIo { completed } => LoopStep::JoinAndAwaitIo {
                completed: completed@,
            },
            ManagerAction::StopAndTransition { stopped, link, request } =>
                LoopStep::StopAndTransition { stopped: views(stopped@), link: link@, request },
            ManagerAction::Finish => LoopStep::Finish,
            ManagerAction::Ignore => LoopStep::Ignore,
        }
    }
}

/// The time that an event carries leaves room for a delay.
pub open spec fn delays_fit(reply: LoopReply) -> bool {
    match reply {
        LoopReply::Looked { now, .. } => now + RETRY_DELAY <= u64::MAX,
        LoopReply::Completed { now, .. } => now + RETRY_DELAY <= u64::MAX,
        _ => true,
    }
}

impl LoopModel {
    /// The loop at another stage.
    pub open spec fn at(self, stage: StageView) -> LoopModel {
        LoopModel { stage, ..self }
    }

    /// The loop about to look, with a reconciliation owed or not.
    pub open spec fn looking(self, owed: bool) -> (LoopModel, LoopStep) {
        (
            LoopModel { reconcile: self.reconcile || owed, stage: StageView::Looking, ..self },
            LoopStep::Look,
        )
    }

    /// The end of the loop.
    pub open spec fn ended(self) -> (LoopModel, LoopStep) {
        (self.at(StageView::Ended), LoopStep::Finish)
    }

    /// When the next delayed link falls due, unless retries are dormant.
    pub open spec fn deadline(self, requested: bool, device_io_allowed: bool) -> Option<u64> {
        if requested || !device_io_allowed {
            None
        } else {
            earliest(self.state.restart_after)
        }
    }

    /// What a look leads to. A change that is seen in passing is fitted to at
    /// once, as is a delayed link that fell due. A reconciliation that is owed while devices must be
    /// left alone is dropped: the event that lifts the suspension owes another.
    pub open spec fn looked(
        self,
        changed: bool,
        requested: bool,
        published: Seq<LinkView>,
        device_io_allowed: bool,
        now: u64,
    ) -> (LoopModel, LoopStep) {
        let deadline = self.deadline(requested, device_io_allowed);
        let due = deadline is Some && deadline->Some_0 <= now;
        if device_io_allowed && (self.reconcile || changed || due) {
            let wanted = ManagerModel::wanted(requested, published);
            let state = self.state.trimmed(requested, published);
            let starting = startable(state.sessions, state.restart_after, wanted, now);
            (
                LoopModel {
                    state,
                    reconcile: false,
                    stage: StageView::Leasing { starting, at: now },
                },
                LoopStep::StopAndLease {
                    stopped: self.state.sessions.filter(serves_none(wanted)),
                    wanted: starting.len() as int,
                },
            )
        } else {
            (
                LoopModel { reconcile: false, stage: StageView::Waiting, ..self },
                LoopStep::Wait { deadline },
            )
        }
    }

    /// What the completion of a session leads to, if the session is current.
    pub open spec fn completed(
        self,
        generation: u64,
        request: Option<(LinkView, HostSwitchRequest)>,
        device_io_allowed: bool,
        now: u64,
    ) -> (LoopModel, LoopStep) {
        match generation_index(self.state.sessions, generation) {
            Some(index) => {
                let session = self.state.sessions[index];
                let rest = ManagerModel {
                    sessions: self.state.sessions.remove(index),
                    ..self.state
                };
                let state = rest.after_completion(session.link, request, device_io_allowed, now);
                match request {
                    Some((link, request)) => (
                        LoopModel {
                            state,
                            stage: StageView::AwaitingIo { link, request },
                            ..self
                        },
                        LoopStep::JoinAndAwaitIo { completed: session },
                    ),
                    None => (
                        LoopModel { state, reconcile: true, stage: StageView::Looking },
                        LoopStep::Join { completed: session },
                    ),
                }
            },
            None => self.looking(false),
        }
    }

    /// Where the loop goes on `reply`, and what it asks for.
    pub open spec fn after(self, reply: LoopReply) -> (LoopModel, LoopStep) {
        match (self.stage, reply) {
            (
                StageView::Looking,
                LoopReply::Looked { changed, requested, published, device_io_allowed, now },
            ) => self.looked(changed, requested, published, device_io_allowed, now),
            (StageView::Leasing { starting, at }, LoopReply::Leased { granted }) => if granted
                <= starting.len() {
                (
                    LoopModel {
                        state: self.state.after_starts(starting, granted as int, at),
                        stage: StageView::Looking,
                        ..self
                    },
                    LoopStep::Start(starts(self.state, starting, granted as int)),
                )
            } else {
                (self, LoopStep::Ignore)
            },
            (
                StageView::Waiting,
                LoopReply::Completed { generation, request, device_io_allowed, now },
            ) => self.completed(generation, request, device_io_allowed, now),
            (StageView::Waiting, LoopReply::LinksChanged { closed }) => if closed {
                self.ended()
            } else {
                self.looking(true)
            },
            (StageView::Waiting, LoopReply::RequestsChanged { closed }) => if closed {
                self.ended()
            } else {
                self.looking(true)
            },
            (StageView::Waiting, LoopReply::DeviceIoChanged { allowed }) => match allowed {
                Some(allowed) => self.looking(allowed),
                None => self.ended(),
            },
            (StageView::Waiting, LoopReply::DeadlineReached) => self.looking(true),
            (StageView::AwaitingIo { link, request }, LoopReply::IoAwaited { resumed }) =>
                if resumed {
                    (
                        LoopModel {
                            state: ManagerModel { sessions: Seq::empty(), ..self.state },
                            stage: StageView::Transitioning,
                            ..self
                        },
                        LoopStep::StopAndTransition {
                            stopped: self.state.sessions,
                            link,
                            request,
                        },
                    )
                } else {
                    self.ended()
                },
            (StageView::Transitioning, LoopReply::TransitionEnded) => self.looking(true),
            _ => (self, LoopStep::Ignore),
        }
    }

    /// A reconciliation that waits for leases leaves room for a delay.
    pub open spec fn well_formed(self) -> bool {
        match self.stage {
            StageView::Leasing { at, .. } => at + RETRY_DELAY <= u64::MAX,
            _ => true,
        }
    }
}

/// A loop that has yet to look for the first time.
pub open spec fn unmanaged() -> LoopModel {
    LoopModel {
        state: ManagerModel {
            sessions: Seq::empty(),
            next_generation: 0,
            restart_after: Seq::empty(),
            announcement_keyboards: Seq::empty(),
        },
        reconcile: true,
        stage: StageView::Looking,
    }
}

/// Begins to keep links armed, with a look and a reconciliation.
pub fn manage() -> (begun: (HostSwitchManager, ManagerAction))
    ensures
        begun.0@ == unmanaged(),
        begun.0@.well_formed(),
        begun.1@ == LoopStep::Look,
{
    (
        HostSwitchManager {
            state: HostSwitchManagerState::new(),
            reconcile: true,
            stage: ManagerStage::Looking,
        },
        ManagerAction::Look,
    )
}

impl HostSwitchManager {
    /// The running sessions and the delayed links.
    pub fn state(&self) -> (state: &HostSwitchManagerState)
        ensures
            state@ == self@.state,
    {
        &self.state
    }

    fn look(&mut self, owed: bool) -> (action: ManagerAction)
        ensures
            (final(self)@, action@) == old(self)@.looking(owed),
    {
        self.reconcile = self.reconcile || owed;
        self.stage = ManagerStage::Looking;
        ManagerAction::Look
    }

    fn end(&mut self) -> (action: ManagerAction)
        ensures
            (final(self)@, action@) == old(self)@.ended(),
    {
        self.stage = ManagerStage::Ended;
        ManagerAction::Finish
    }

    fn take_look(
        &mut self,
        changed: bool,
        requests: ReceiverRequestState,
        published: &[HostSwitchLink],
        device_io_allowed: bool,
        now: u64,
    ) -> (action: ManagerAction)
        ensures
            (final(self)@, action@) == old(self)@.looked(
                changed,
                requests.outstanding > 0,
                views(published@),
                device_io_allowed,
                now,
            ),
    {
        let deadline = self.state.deadline(requests, device_io_allowed);
        let due = match deadline {
            Some(deadline) => deadline <= now,
            None => false,
        };
        let owed = self.reconcile;
        self.reconcile = false;
        if device_io_allowed && (owed || changed || due) {
            let todo = self.state.reconcile(requests, published, true, now);
            let wanted: usize = todo.starting.len();
            assert(views(todo.starting@).len() == wanted);
            self.stage = ManagerStage::Leasing { starting: todo.starting, at: now };
            ManagerAction::StopAndLease { stopped: todo.stopped, wanted }
        } else {
            self.stage = ManagerStage::Waiting;
            ManagerAction::Wait { deadline }
        }
    }

    fn take_completion(
        &mut self,
        completion: SessionCompletion,
        device_io_allowed: bool,
        now: u64,
    ) -> (action: ManagerAction)
        requires
            now + RETRY_DELAY <= u64::MAX,
        ensures
            (final(self)@, action@) == old(self)@.completed(
                completion.generation,
                request_view(completion.request),
                device_io_allowed,
                now,
            ),
    {
        let ghost before = self.state.sessions@;
        match accept_completion(&mut self.state.sessions, completion) {
            Some(accepted) => {
                let completed = RunningSession {
                    link: accepted.completed.link.clone(),
                    generation: accepted.completed.generation,
                };
                proof {
                    let index = generation_index(views(before), completion.generation)->Some_0;
                    assert(views(self.state.sessions@) =~= views(before).remove(index));
                    assert(views(before)[index] == completed@);
                }
                match self.state.complete(accepted, device_io_allowed, now) {
                    CompletionAction::RunTransition { link, request } => {
                        self.stage = ManagerStage::AwaitingIo { link, request };
                        ManagerAction::JoinAndAwaitIo { completed }
                    },
                    CompletionAction::Reconcile => {
                        self.reconcile = true;
                        self.stage = ManagerStage::Looking;
                        ManagerAction::Join { completed }
                    },
                }
            },
            None => self.look(false),
        }
    }

    /// Takes what came of the last action and names the next one.
    pub fn advance(&mut self, event: ManagerEvent) -> (action: ManagerAction)
        requires
            old(self)@.well_formed(),
            delays_fit(event@),
        ensures
            final(self)@.well_formed(),
            (final(self)@, action@) == old(self)@.after(event@),
    {
        let mut stage = ManagerStage::Ended;
        core::mem::swap(&mut stage, &mut self.stage);
        match (stage, event) {
            (
                ManagerStage::Looking,
                ManagerEvent::Looked { changed, requests, published, device_io_allowed, now },
            ) => self.take_look(changed, requests, published.as_slice(), device_io_allowed, now),
            (ManagerStage::Leasing { starting, at }, ManagerEvent::Leased { granted }) => {
                assert(views(starting@).len() == starting@.len());
                if granted <= starting.len() {
                    let begun = self.state.start_sessions(starting.as_slice(), granted, at);
                    self.stage = ManagerStage::Looking;
                    ManagerAction::Start(begun)
                } else {
                    self.stage = ManagerStage::Leasing { starting, at };
                    ManagerAction::Ignore
                }
            },
            (
                ManagerStage::Waiting,
                ManagerEvent::Completed { completion, device_io_allowed, now },
            ) => self.take_completion(completion, device_io_allowed, now),
            (ManagerStage::Waiting, ManagerEvent::LinksChanged { closed }) => if closed {
                self.end()
            } else {
                self.look(true)
            },
            (ManagerStage::Waiting, ManagerEvent::RequestsChanged { closed }) => if closed {
                self.end()
            } else {
                self.look(true)
            },
            (ManagerStage::Waiting, ManagerEvent::DeviceIoChanged { allowed }) => match allowed {
                Some(allowed) => self.look(allowed),
                None => self.end(),
            },
            (ManagerStage::Waiting, ManagerEvent::DeadlineReached) => self.look(true),
            (ManagerStage::AwaitingIo { link, request }, ManagerEvent::IoAwaited { resumed }) =>
                if resumed {
                    let stopped = self.state.stop_all();
                    self.stage = ManagerStage::Transitioning;
                    ManagerAction::StopAndTransition { stopped, link, request }
                } else {
                    self.end()
                },
            (ManagerStage::Transitioning, ManagerEvent::TransitionEnded) => self.look(true),
            (stage, _) => {
                self.stage = stage;
                ManagerAction::Ignore
            },
        }
    }
}

} // verus!
