//! Keeps configured keyboard to linked-device relationships armed.

use vstd::prelude::*;
use vstd::string::*;

use crate::host_switch::error::HostSwitchError;
use crate::host_switch::request::{HostSwitchCaptureMode, HostSwitchRequest};
use crate::route::{DeviceRoute, RouteView};
use crate::seqs::views;
use crate::text::same_text;

verus! {

/// Milliseconds before a link whose session ended is taken up again.
pub const RETRY_DELAY: u64 = 1000;

/// Milliseconds that a commanded keyboard is given to leave the inventory.
pub const DEPARTURE_TIMEOUT: u64 = 10_000;

/// One resolved link between a keyboard and the devices that follow it.
#[derive(Debug, PartialEq, Eq)]
pub struct HostSwitchLink {
    /// Stable physical configuration identity of the initiating keyboard.
    pub keyboard_key: String,
    /// Keyboard whose host switch keys initiate the transition.
    pub keyboard: DeviceRoute,
    /// Devices that follow the keyboard.
    pub targets: Vec<DeviceRoute>,
}

/// Mathematical content of a [`HostSwitchLink`].
pub struct LinkView {
    /// See [`HostSwitchLink::keyboard_key`].
    pub keyboard_key: Seq<char>,
    /// See [`HostSwitchLink::keyboard`].
    pub keyboard: RouteView,
    /// See [`HostSwitchLink::targets`].
    pub targets: Seq<RouteView>,
}

impl View for HostSwitchLink {
    type V = LinkView;

    open spec fn view(&self) -> LinkView {
        LinkView {
            keyboard_key: self.keyboard_key@,
            keyboard: self.keyboard@,
            targets: views(self.targets@),
        }
    }
}

impl Clone for HostSwitchLink {
    fn clone(&self) -> (copy: Self)
        ensures
            copy@ == self@,
    {
        let mut targets: Vec<DeviceRoute> = Vec::new();
        let mut i: usize = 0;
        while i < self.targets.len()
            invariant
                i <= self.targets@.len(),
                targets@ == self.targets@.take(i as int),
            decreases self.targets@.len() - i,
        {
            targets.push(self.targets[i].clone());
            i = i + 1;
        }
        assert(targets@ =~= self.targets@);
        HostSwitchLink {
            keyboard_key: self.keyboard_key.clone(),
            keyboard: self.keyboard.clone(),
            targets,
        }
    }
}

impl HostSwitchLink {
    /// Whether two links are the same link.
    pub fn same_link(&self, other: &HostSwitchLink) -> (same: bool)
        ensures
            same == (self@ == other@),
    {
        if !same_text(self.keyboard_key.as_str(), other.keyboard_key.as_str()) {
            return false;
        }
        if !self.keyboard.same_route(&other.keyboard) {
            return false;
        }
        if self.targets.len() != other.targets.len() {
            assert(self@.targets.len() != other@.targets.len());
            return false;
        }
        let mut i: usize = 0;
        while i < self.targets.len()
            invariant
                i <= self.targets@.len(),
                self.targets@.len() == other.targets@.len(),
                forall|k: int| 0 <= k < i ==> self@.targets[k] == other@.targets[k],
            decreases self.targets@.len() - i,
        {
            if !self.targets[i].same_route(&other.targets[i]) {
                assert(self@.targets[i as int] != other@.targets[i as int]);
                return false;
            }
            i = i + 1;
        }
        assert(self@.targets =~= other@.targets);
        true
    }
}

/// Whether `link` is one of `links`.
pub fn has_link(links: &[HostSwitchLink], link: &HostSwitchLink) -> (found: bool)
    ensures
        found == views(links@).contains(link@),
{
    let mut i: usize = 0;
    while i < links.len()
        invariant
            i <= links@.len(),
            forall|k: int| 0 <= k < i ==> views(links@)[k] != link@,
        decreases links@.len() - i,
    {
        if links[i].same_link(link) {
            assert(views(links@)[i as int] == link@);
            return true;
        }
        i = i + 1;
    }
    false
}

/// Outstanding requests for exclusive use of a receiver.
#[derive(Debug, Clone, Copy, PartialEq, Eq, Structural)]
pub struct ReceiverRequestState {
    /// How many requests are outstanding.
    pub outstanding: u32,
}

impl Default for ReceiverRequestState {
    fn default() -> (none: Self)
        ensures
            none.outstanding == 0,
    {
        ReceiverRequestState { outstanding: 0 }
    }
}

impl ReceiverRequestState {
    /// Whether anything waits for exclusive use of a receiver.
    pub fn any(&self) -> (requested: bool)
        ensures
            requested == (self.outstanding > 0),
    {
        self.outstanding > 0
    }
}

/// A capture session that was started and has not been accepted as complete.
#[derive(Debug)]
pub struct RunningSession {
    /// Link that the session serves.
    pub link: HostSwitchLink,
    /// Number that tells it from its predecessors.
    pub generation: u64,
}

/// Mathematical content of a [`RunningSession`].
pub struct SessionView {
    /// See [`RunningSession::link`].
    pub link: LinkView,
    /// See [`RunningSession::generation`].
    pub generation: u64,
}

impl View for RunningSession {
    type V = SessionView;

    open spec fn view(&self) -> SessionView {
        SessionView { link: self.link@, generation: self.generation }
    }
}

/// What a finished session reports.
#[derive(Debug)]
pub struct SessionCompletion {
    /// Number of the session.
    pub generation: u64,
    /// The request that it captured, with the link to serve.
    pub request: Option<(HostSwitchLink, HostSwitchRequest)>,
}

/// A completion of a session that was still current.
#[derive(Debug)]
pub struct AcceptedCompletion {
    /// The session, which is running no longer.
    pub completed: RunningSession,
    /// The request that it captured, with the link to serve.
    pub request: Option<(HostSwitchLink, HostSwitchRequest)>,
}

/// What a request with its link stands for.
pub open spec fn request_view(request: Option<(HostSwitchLink, HostSwitchRequest)>) -> Option<
    (LinkView, HostSwitchRequest),
> {
    match request {
        Some((link, request)) => Some((link@, request)),
        None => None,
    }
}

/// What a session reports when it ends: the request, if it captured one, and
/// nothing of a failure.
pub fn session_completion(
    link: HostSwitchLink,
    generation: u64,
    outcome: Result<Option<HostSwitchRequest>, HostSwitchError>,
) -> (completion: SessionCompletion)
    ensures
        completion.generation == generation,
        request_view(completion.request) == match outcome {
            Ok(Some(request)) => Some((link@, request)),
            _ => None,
        },
{
    let request = match outcome {
        Ok(Some(request)) => Some((link, request)),
        _ => None,
    };
    SessionCompletion { generation, request }
}

/// Position of the first session of a generation.
pub open spec fn generation_index(sessions: Seq<SessionView>, generation: u64) -> Option<int>
    decreases sessions.len(),
{
    if sessions.len() == 0 {
        None
    } else {
        match generation_index(sessions.drop_last(), generation) {
            Some(index) => Some(index),
            None => if sessions.last().generation == generation {
                Some(sessions.len() - 1)
            } else {
                None
            },
        }
    }
}

/// Accept a completion only while its exact session generation is still live.
///
/// A stopped session can finish after a replacement is armed. Discarding that
/// obsolete request here prevents its host selection from moving the current
/// session's linked devices.
pub fn accept_completion(sessions: &mut Vec<RunningSession>, completion: SessionCompletion)
    -> (accepted: Option<AcceptedCompletion>)
    ensures
        match (generation_index(views(old(sessions)@), completion.generation), accepted) {
            (Some(index), Some(accepted)) => {
                &&& 0 <= index < old(sessions)@.len()
                &&& accepted.completed == old(sessions)@[index]
                &&& accepted.request == completion.request
                &&& final(sessions)@ == old(sessions)@.remove(index)
            },
            (None, None) => final(sessions)@ == old(sessions)@,
            _ => false,
        },
{
    let ghost seen = views(sessions@);
    let mut index: usize = 0;
    while index < sessions.len()
        invariant
            index <= sessions@.len(),
            *sessions == *old(sessions),
            seen == views(sessions@),
            generation_index(seen.take(index as int), completion.generation) is None,
        decreases sessions@.len() - index,
    {
        proof {
            assert(seen.take(index + 1).drop_last() =~= seen.take(index as int));
            assert(seen.take(index + 1).last() == sessions@[index as int]@);
        }
        if sessions[index].generation == completion.generation {
            proof {
                first_generation_stays_first(seen, index + 1, completion.generation);
            }
            let completed = sessions.remove(index);
            return Some(AcceptedCompletion { completed, request: completion.request });
        }
        index = index + 1;
    }
    assert(seen.take(index as int) =~= seen);
    None
}

proof fn first_generation_stays_first(sessions: Seq<SessionView>, n: int, generation: u64)
    requires
        0 <= n <= sessions.len(),
        generation_index(sessions.take(n), generation) is Some,
    ensures
        generation_index(sessions, generation) == generation_index(sessions.take(n), generation),
    decreases sessions.len() - n,
{
    if n < sessions.len() {
        assert(sessions.take(n + 1).drop_last() =~= sessions.take(n));
        first_generation_stays_first(sessions, n + 1, generation);
    } else {
        assert(sessions.take(n) =~= sessions);
    }
}

/// How a keyboard is captured: only one whose announcements were observed is
/// captured by them alone.
pub open spec fn capture_mode(announcement_keyboards: Seq<Seq<char>>, keyboard_key: Seq<char>)
    -> HostSwitchCaptureMode {
    if announcement_keyboards.contains(keyboard_key) {
        HostSwitchCaptureMode::ChangeHostAnnouncement
    } else {
        HostSwitchCaptureMode::Full
    }
}

fn has_key(keys: &[String], key: &str) -> (found: bool)
    ensures
        found == views(keys@).contains(key@),
{
    let mut i: usize = 0;
    while i < keys.len()
        invariant
            i <= keys@.len(),
            forall|k: int| 0 <= k < i ==> views(keys@)[k] != key@,
        decreases keys@.len() - i,
    {
        if same_text(keys[i].as_str(), key) {
            assert(views(keys@)[i as int] == key@);
            return true;
        }
        i = i + 1;
    }
    false
}

/// Chooses how the keyboard with this key is captured.
pub fn capture_mode_for(announcement_keyboards: &[String], keyboard_key: &str) -> (mode:
    HostSwitchCaptureMode)
    ensures
        mode == capture_mode(views(announcement_keyboards@), keyboard_key@),
{
    if has_key(announcement_keyboards, keyboard_key) {
        HostSwitchCaptureMode::ChangeHostAnnouncement
    } else {
        HostSwitchCaptureMode::Full
    }
}

/// The keyboards known for their announcements, once one more is known.
pub open spec fn remembered(keys: Seq<Seq<char>>, key: Seq<char>) -> Seq<Seq<char>> {
    if keys.contains(key) {
        keys
    } else {
        keys.push(key)
    }
}

/// Records that a keyboard's announcements were observed.
pub fn remember_announcement_keyboard(
    announcement_keyboards: &mut Vec<String>,
    keyboard_key: String,
)
    ensures
        views(final(announcement_keyboards)@) == remembered(
            views(old(announcement_keyboards)@),
            keyboard_key@,
        ),
{
    if !has_key(announcement_keyboards.as_slice(), keyboard_key.as_str()) {
        announcement_keyboards.push(keyboard_key);
        assert(views(announcement_keyboards@) =~= views(old(announcement_keyboards)@).push(
            keyboard_key@,
        ));
    }
}

/// Whether a keyboard is missing from the routes of an inventory.
pub fn keyboard_departed(inventory: &[DeviceRoute], keyboard: &DeviceRoute) -> (departed: bool)
    ensures
        departed == !views(inventory@).contains(keyboard@),
{
    let mut i: usize = 0;
    while i < inventory.len()
        invariant
            i <= inventory@.len(),
            forall|k: int| 0 <= k < i ==> views(inventory@)[k] != keyboard@,
        decreases inventory@.len() - i,
    {
        if inventory[i].same_route(keyboard) {
            assert(views(inventory@)[i as int] == keyboard@);
            return false;
        }
        i = i + 1;
    }
    true
}

/// Why a wait for a departure takes another look.
#[derive(Debug, Clone, Copy, PartialEq, Eq, Structural)]
pub enum DepartureEvent {
    /// The wait begins.
    Started,
    /// A new inventory was published.
    InventoryChanged,
    /// No inventory will be published any more.
    InventoryClosed,
    /// The time for the departure is up.
    TimedOut,
}

/// Whether a wait for a departure is over, and whether the departure was seen.
///
/// Only the inventory confirms a departure: a wait that times out or is cut off
/// has not seen one, and an inventory that still lists the keyboard prolongs it.
pub fn departure_observed(
    event: DepartureEvent,
    inventory: &[DeviceRoute],
    keyboard: &DeviceRoute,
) -> (observed: Option<bool>)
    ensures
        observed == match event {
            DepartureEvent::Started | DepartureEvent::InventoryChanged => if views(
                inventory@,
            ).contains(keyboard@) {
                None
            } else {
                Some(true)
            },
            DepartureEvent::InventoryClosed | DepartureEvent::TimedOut => Some(false),
        },
{
    match event {
        DepartureEvent::Started | DepartureEvent::InventoryChanged => {
            if keyboard_departed(inventory, keyboard) {
                Some(true)
            } else {
                None
            }
        },
        DepartureEvent::InventoryClosed | DepartureEvent::TimedOut => Some(false),
    }
}

/// What is left to do once a linked transition has returned.
#[derive(Debug, Clone, Copy, PartialEq, Eq, Structural)]
pub enum TransitionFollowUp {
    /// Wait until the keyboard has left, for [`DEPARTURE_TIMEOUT`] at most.
    AwaitDeparture,
    /// Nothing: the keyboard stays.
    Nothing,
    /// Warn that the destination could not be revalidated; followers remain.
    WarnUnverified,
    /// Note that the transition failed.
    NoteFailure,
}

/// Decides what a linked transition leaves to do.
pub fn transition_follow_up(outcome: &Result<bool, HostSwitchError>) -> (follow_up:
    TransitionFollowUp)
    ensures
        follow_up == match *outcome {
            Ok(true) => TransitionFollowUp::AwaitDeparture,
            Ok(false) => TransitionFollowUp::Nothing,
            Err(HostSwitchError::HostSlotUnverified { .. }) => TransitionFollowUp::WarnUnverified,
            Err(_) => TransitionFollowUp::NoteFailure,
        },
{
    match outcome {
        Ok(departs) => if *departs {
            TransitionFollowUp::AwaitDeparture
        } else {
            TransitionFollowUp::Nothing
        },
        Err(HostSwitchError::HostSlotUnverified { .. }) => TransitionFollowUp::WarnUnverified,
        Err(_) => TransitionFollowUp::NoteFailure,
    }
}

} // verus!
