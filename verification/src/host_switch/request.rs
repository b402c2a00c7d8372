//! What a capture session observes and requests.

use vstd::prelude::*;

use crate::host_switch::slots::ReportedHostSlot;

verus! {

/// Why an armed host-switch session is being stopped externally.
#[derive(Debug, Clone, Copy, PartialEq, Eq, Structural)]
pub enum HostSwitchStopReason {
    /// The keyboard remains reachable, so its controls must be restored.
    Graceful,
    /// The keyboard disappeared, so only local resources can be released.
    DeviceLost,
}

/// How the keyboard itself reaches the destination it was asked for.
#[derive(Debug, Clone, Copy, PartialEq, Eq, Structural)]
pub enum KeyboardHostTransition {
    /// Move linked devices first, then command the keyboard last.
    CommandRequired,
    /// An undiverted control reported the press, so the keyboard may begin its
    /// own transition at any moment.
    AnalyticsEvent {
        /// Pairing status of the destination when the key was pressed.
        host_slot: ReportedHostSlot,
    },
    /// The keyboard firmware is already leaving; move linked devices now.
    AlreadyDeparting {
        /// Pairing status of the destination when the departure was announced.
        host_slot: ReportedHostSlot,
    },
}

impl KeyboardHostTransition {
    /// Whether the keyboard announced its own departure, which proves that
    /// announcement-only capture works for it on later connections.
    pub fn announcement_observed(self) -> (observed: bool)
        ensures
            observed == (self is AlreadyDeparting),
    {
        matches!(self, KeyboardHostTransition::AlreadyDeparting { .. })
    }
}

/// How a host-switch session should observe the keyboard.
#[derive(Debug, Clone, Copy, PartialEq, Eq, Structural)]
pub enum HostSwitchCaptureMode {
    /// Discover and arm the keyboard's reportable host controls.
    Full,
    /// Resolve ChangeHost and listen only for its departure announcement.
    ChangeHostAnnouncement,
}

/// A host-switch request captured from the keyboard.
#[derive(Debug, Clone, Copy, PartialEq, Eq, Structural)]
pub struct HostSwitchRequest {
    /// Zero-based destination host slot.
    pub host: u8,
    /// How the keyboard itself will reach the destination.
    pub keyboard_transition: KeyboardHostTransition,
}

} // verus!
