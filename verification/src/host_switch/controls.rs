//! Reprogrammable controls as host-switch capture sees them.

use vstd::prelude::*;

use crate::host_switch::request::{HostSwitchRequest, KeyboardHostTransition};
use crate::host_switch::slots::ReportedHostSlot;

verus! {

/// Id of a reprogrammable control.
#[derive(Debug, Clone, Copy, PartialEq, Eq, Structural)]
pub struct ControlId(pub u16);

impl Default for ControlId {
    fn default() -> (id: Self)
        ensures
            id.0 == 0,
    {
        ControlId(0)
    }
}

/// One analytics report about a control.
#[derive(Debug, Clone, Copy, PartialEq, Eq, Structural)]
pub struct AnalyticsKeyEvent {
    /// Control that the report is about.
    pub cid: ControlId,
    /// What happened to it.
    pub event: u8,
}

impl Default for AnalyticsKeyEvent {
    fn default() -> (event: Self)
        ensures
            event.cid.0 == 0,
            event.event == 0,
    {
        AnalyticsKeyEvent { cid: ControlId(0), event: 0 }
    }
}

/// A decoded report of the reprogrammable-controls feature.
#[derive(Debug, Clone, Copy, PartialEq, Eq)]
pub enum ReprogControlsEvent {
    /// Diverted controls that are held down now.
    DivertedButtons([ControlId; 4]),
    /// Diverted pointer motion.
    DivertedRawMouseXy {
        /// Horizontal motion.
        dx: i16,
        /// Vertical motion.
        dy: i16,
    },
    /// Analytics reports, padded with empty ones.
    AnalyticsKeyEvents([AnalyticsKeyEvent; 5]),
    /// Diverted wheel motion.
    DivertedRawWheel {
        /// Wheel motion.
        delta: i16,
    },
}

/// Reporting state of a control.
#[derive(Debug, Clone, Copy, PartialEq, Eq, Structural)]
pub struct CidReporting {
    /// Control that the state is about.
    pub cid: ControlId,
    /// Whether presses go to software instead of the host.
    pub diverted: bool,
    /// Whether diversion outlives the connection.
    pub persistently_diverted: bool,
    /// Whether raw motion is forced.
    pub force_raw_xy: bool,
    /// Whether raw motion is reported.
    pub raw_xy: bool,
    /// Control that this one acts as, if remapped.
    pub remap: Option<ControlId>,
    /// Whether presses are reported besides taking effect.
    pub analytics_key_events: bool,
    /// Whether raw wheel motion is reported.
    pub raw_wheel: bool,
}

/// A change to the reporting state of a control; `None` leaves a part alone.
#[derive(Debug, Clone, Copy, PartialEq, Eq, Structural)]
pub struct CidReportingChange {
    /// See [`CidReporting::diverted`].
    pub diverted: Option<bool>,
    /// See [`CidReporting::persistently_diverted`].
    pub persistently_diverted: Option<bool>,
    /// See [`CidReporting::force_raw_xy`].
    pub force_raw_xy: Option<bool>,
    /// See [`CidReporting::raw_xy`].
    pub raw_xy: Option<bool>,
    /// See [`CidReporting::remap`].
    pub remap: Option<ControlId>,
    /// See [`CidReporting::analytics_key_events`].
    pub analytics_key_events: Option<bool>,
    /// See [`CidReporting::raw_wheel`].
    pub raw_wheel: Option<bool>,
}

/// The change that changes nothing.
pub open spec fn no_change() -> CidReportingChange {
    CidReportingChange {
        diverted: None,
        persistently_diverted: None,
        force_raw_xy: None,
        raw_xy: None,
        remap: None,
        analytics_key_events: None,
        raw_wheel: None,
    }
}

impl Default for CidReportingChange {
    fn default() -> (change: Self)
        ensures
            change == no_change(),
    {
        CidReportingChange {
            diverted: None,
            persistently_diverted: None,
            force_raw_xy: None,
            raw_xy: None,
            remap: None,
            analytics_key_events: None,
            raw_wheel: None,
        }
    }
}

/// How an armed control reports its presses.
#[derive(Debug, Clone, Copy, PartialEq, Eq, Structural)]
pub enum ReportingMode {
    /// Presses go to software only.
    Diverted,
    /// Presses are reported while they take effect.
    Analytics,
}

/// A host-switch control whose reporting was changed for capture.
#[derive(Debug, Clone, Copy, PartialEq, Eq, Structural)]
pub struct ArmedControl {
    /// Id of the control.
    pub cid: u16,
    /// Zero-based host slot that it selects.
    pub host: u8,
    /// How it reports now.
    pub mode: ReportingMode,
    /// How it reported before.
    pub original: CidReporting,
}

/// How the controls of a keyboard are put back after a press was captured.
#[derive(Debug, Clone, Copy, PartialEq, Eq, Structural)]
pub enum ControlCleanup {
    /// The keyboard stays until it is commanded: restore, and retry once.
    Full,
    /// The keyboard may be leaving: restore without waiting or retrying.
    Prompt,
}

/// A host key press that was captured.
#[derive(Debug, Clone, Copy, PartialEq, Eq, Structural)]
pub struct CapturedControl {
    /// What the press asks for.
    pub request: HostSwitchRequest,
    /// How the controls are put back.
    pub cleanup: ControlCleanup,
}

/// The bits that arming changed, put back to what they were.
pub open spec fn restoration(control: ArmedControl) -> CidReportingChange {
    match control.mode {
        ReportingMode::Diverted => CidReportingChange {
            diverted: Some(control.original.diverted),
            raw_xy: Some(control.original.raw_xy),
            ..no_change()
        },
        ReportingMode::Analytics => CidReportingChange {
            analytics_key_events: Some(control.original.analytics_key_events),
            ..no_change()
        },
    }
}

/// The change that puts a control's temporary reporting bits back.
pub fn restoration_change(control: ArmedControl) -> (change: CidReportingChange)
    ensures
        change == restoration(control),
{
    match control.mode {
        ReportingMode::Diverted => CidReportingChange {
            diverted: Some(control.original.diverted),
            raw_xy: Some(control.original.raw_xy),
            ..CidReportingChange::default()
        },
        ReportingMode::Analytics => CidReportingChange {
            analytics_key_events: Some(control.original.analytics_key_events),
            ..CidReportingChange::default()
        },
    }
}

/// Whether a control is among those held down.
pub open spec fn held(cids: Seq<ControlId>, cid: u16) -> bool {
    exists|i: int| 0 <= i < cids.len() && (#[trigger] cids[i]).0 == cid
}

/// Whether a control is among those that analytics reports are about.
pub open spec fn analyzed(events: Seq<AnalyticsKeyEvent>, cid: u16) -> bool {
    exists|i: int| 0 <= i < events.len() && (#[trigger] events[i]).cid.0 == cid
}

/// Whether an event reports a press of the control `cid`.
pub open spec fn reports(event: ReprogControlsEvent, cid: u16) -> bool {
    match event {
        ReprogControlsEvent::DivertedButtons(cids) => held(cids@, cid),
        ReprogControlsEvent::AnalyticsKeyEvents(events) => analyzed(events@, cid),
        _ => false,
    }
}

/// The host of the first control that an event reports.
pub open spec fn reported_host(controls: Seq<ArmedControl>, event: ReprogControlsEvent) -> Option<
    u8,
>
    decreases controls.len(),
{
    if controls.len() == 0 {
        None
    } else if reports(event, controls[0].cid) {
        Some(controls[0].host)
    } else {
        reported_host(controls.drop_first(), event)
    }
}

fn is_held(cids: &[ControlId], cid: u16) -> (found: bool)
    ensures
        found == held(cids@, cid),
{
    let mut i: usize = 0;
    while i < cids.len()
        invariant
            i <= cids@.len(),
            forall|j: int| 0 <= j < i ==> (#[trigger] cids@[j]).0 != cid,
        decreases cids@.len() - i,
    {
        if cids[i].0 == cid {
            return true;
        }
        i += 1;
    }
    false
}

fn is_analyzed(events: &[AnalyticsKeyEvent], cid: u16) -> (found: bool)
    ensures
        found == analyzed(events@, cid),
{
    let mut i: usize = 0;
    while i < events.len()
        invariant
            i <= events@.len(),
            forall|j: int| 0 <= j < i ==> (#[trigger] events@[j]).cid.0 != cid,
        decreases events@.len() - i,
    {
        if events[i].cid.0 == cid {
            return true;
        }
        i += 1;
    }
    false
}

fn event_reports(event: &ReprogControlsEvent, cid: u16) -> (found: bool)
    ensures
        found == reports(*event, cid),
{
    match event {
        ReprogControlsEvent::DivertedButtons(cids) => is_held(cids.as_slice(), cid),
        ReprogControlsEvent::AnalyticsKeyEvents(events) => is_analyzed(events.as_slice(), cid),
        ReprogControlsEvent::DivertedRawMouseXy { .. }
        | ReprogControlsEvent::DivertedRawWheel { .. } => false,
    }
}

/// The host that a reported press selects.
pub fn event_host(controls: &[ArmedControl], event: ReprogControlsEvent) -> (host: Option<u8>)
    ensures
        host == reported_host(controls@, event),
{
    let mut i: usize = 0;
    assert(controls@.skip(0) =~= controls@);
    while i < controls.len()
        invariant
            i <= controls@.len(),
            reported_host(controls@, event) == reported_host(controls@.skip(i as int), event),
        decreases controls@.len() - i,
    {
        assert(controls@.skip(i as int).drop_first() =~= controls@.skip(i + 1));
        if event_reports(&event, controls[i].cid) {
            return Some(controls[i].host);
        }
        i += 1;
    }
    None
}

/// Whether a diverted control selects `host`.
pub open spec fn diverts(controls: Seq<ArmedControl>, host: u8) -> bool {
    exists|i: int|
        0 <= i < controls.len() && (#[trigger] controls[i]).host == host && controls[i].mode
            == ReportingMode::Diverted
}

/// What a reported press asks for, given the controls that were armed.
///
/// A diverted control leaves the keyboard where it is, so it must be commanded
/// and there is time to put its controls back. An undiverted one takes effect
/// while it is reported, so nothing may wait for the keyboard.
pub open spec fn captured_press(
    controls: Seq<ArmedControl>,
    event: ReprogControlsEvent,
) -> Option<CapturedControl> {
    match reported_host(controls, event) {
        None => None,
        Some(host) => Some(
            if diverts(controls, host) {
                CapturedControl {
                    request: HostSwitchRequest {
                        host,
                        keyboard_transition: KeyboardHostTransition::CommandRequired,
                    },
                    cleanup: ControlCleanup::Full,
                }
            } else {
                CapturedControl {
                    request: HostSwitchRequest {
                        host,
                        keyboard_transition: KeyboardHostTransition::AnalyticsEvent {
                            host_slot: ReportedHostSlot::Unknown,
                        },
                    },
                    cleanup: ControlCleanup::Prompt,
                }
            },
        ),
    }
}

/// What a reported press asks for.
pub fn host_control_request(controls: &[ArmedControl], event: ReprogControlsEvent) -> (captured:
    Option<CapturedControl>)
    ensures
        captured == captured_press(controls@, event),
{
    let host = match event_host(controls, event) {
        Some(host) => host,
        None => return None,
    };
    let mut diverted = false;
    let mut i: usize = 0;
    while i < controls.len() && !diverted
        invariant
            i <= controls@.len(),
            diverted == diverts(controls@.take(i as int), host),
            diverted ==> diverts(controls@, host),
        decreases controls@.len() - i,
    {
        let control = controls[i];
        proof {
            let before = controls@.take(i as int);
            let here = controls@.take(i + 1);
            assert(here =~= before.push(control));
            assert(here[i as int] == control);
            if diverts(here, host) {
                let k = choose|k: int|
                    0 <= k < here.len() && (#[trigger] here[k]).host == host && here[k].mode
                        == ReportingMode::Diverted;
                if k < i {
                    assert(before[k] == here[k]);
                }
            }
            assert(controls@[i as int] == control);
        }
        diverted = control.host == host && control.mode == ReportingMode::Diverted;
        i += 1;
    }
    assert(i == controls@.len() ==> controls@.take(i as int) =~= controls@);
    if diverted {
        Some(
            CapturedControl {
                request: HostSwitchRequest {
                    host,
                    keyboard_transition: KeyboardHostTransition::CommandRequired,
                },
                cleanup: ControlCleanup::Full,
            },
        )
    } else {
        Some(
            CapturedControl {
                request: HostSwitchRequest {
                    host,
                    keyboard_transition: KeyboardHostTransition::AnalyticsEvent {
                        host_slot: ReportedHostSlot::Unknown,
                    },
                },
                cleanup: ControlCleanup::Prompt,
            },
        )
    }
}

/// The reporting state that a change leaves behind.
pub open spec fn applied(state: CidReporting, change: CidReportingChange) -> CidReporting {
    CidReporting {
        cid: state.cid,
        diverted: change.diverted.unwrap_or(state.diverted),
        persistently_diverted: change.persistently_diverted.unwrap_or(
            state.persistently_diverted,
        ),
        force_raw_xy: change.force_raw_xy.unwrap_or(state.force_raw_xy),
        raw_xy: change.raw_xy.unwrap_or(state.raw_xy),
        remap: if change.remap is Some {
            change.remap
        } else {
            state.remap
        },
        analytics_key_events: change.analytics_key_events.unwrap_or(state.analytics_key_events),
        raw_wheel: change.raw_wheel.unwrap_or(state.raw_wheel),
    }
}

/// Whether two states agree on all but the bits that a mode changes.
pub open spec fn differ_by_mode(left: CidReporting, right: CidReporting, mode: ReportingMode)
    -> bool {
    match mode {
        ReportingMode::Diverted => left == CidReporting {
            diverted: left.diverted,
            raw_xy: left.raw_xy,
            ..right
        },
        ReportingMode::Analytics => left == CidReporting {
            analytics_key_events: left.analytics_key_events,
            ..right
        },
    }
}

/// Restoring undoes arming: a control whose temporary bits were changed, in
/// whatever way, reports exactly as before once its restoration is applied.
pub proof fn restoring_undoes_arming(control: ArmedControl, now: CidReporting)
    requires
        differ_by_mode(now, control.original, control.mode),
    ensures
        applied(now, restoration(control)) == control.original,
{
}

/// Restoring touches nothing else: bits that arming has no business with stay
/// as they are, whoever set them.
pub proof fn restoring_touches_only_the_temporary_bits(control: ArmedControl, now: CidReporting)
    ensures
        differ_by_mode(applied(now, restoration(control)), now, control.mode),
{
}

/// Only armed controls are ever captured, and the press that was captured names
/// the host of one that the event reports.
pub proof fn a_capture_names_an_armed_host(controls: Seq<ArmedControl>, event: ReprogControlsEvent)
    ensures
        match captured_press(controls, event) {
            Some(captured) => exists|i: int|
                0 <= i < controls.len() && reports(event, (#[trigger] controls[i]).cid)
                    && controls[i].host == captured.request.host,
            None => forall|i: int|
                0 <= i < controls.len() ==> !reports(event, (#[trigger] controls[i]).cid),
        },
    decreases controls.len(),
{
    if controls.len() > 0 {
        let rest = controls.drop_first();
        a_capture_names_an_armed_host(rest, event);
        if reports(event, controls[0].cid) {
            assert(controls[0].host == captured_press(controls, event)->Some_0.request.host);
        } else if captured_press(rest, event) is Some {
            let i = choose|i: int|
                0 <= i < rest.len() && reports(event, (#[trigger] rest[i]).cid) && rest[i].host
                    == captured_press(rest, event)->Some_0.request.host;
            assert(rest[i] == controls[i + 1]);
        } else {
            assert forall|i: int| 0 <= i < controls.len() implies !reports(
                event,
                (#[trigger] controls[i]).cid,
            ) by {
                if i > 0 {
                    assert(rest[i - 1] == controls[i]);
                }
            }
        }
    }
}

} // verus!
