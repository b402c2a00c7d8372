//! What holds of every captured press and every restoration.

use vstd::prelude::*;

use crate::host_switch::controls::{
    captured_press, diverts, held, analyzed, reported_host, reports, restoration, ArmedControl,
    CapturedControl, ControlCleanup, ControlId, ReportingMode, ReprogControlsEvent,
};
use crate::host_switch::request::KeyboardHostTransition;
use crate::host_switch::slots::ReportedHostSlot;

verus! {

/// The event names the control `cid` at some place of its list.
pub open spec fn names_control(event: ReprogControlsEvent, cid: u16) -> bool {
    match event {
        ReprogControlsEvent::DivertedButtons(cids) => exists|p: int|
            0 <= p < 4 && #[trigger] cids@[p] == ControlId(cid),
        ReprogControlsEvent::AnalyticsKeyEvents(events) => exists|p: int|
            0 <= p < 5 && (#[trigger] events@[p]).cid == ControlId(cid),
        ReprogControlsEvent::DivertedRawMouseXy { .. } => false,
        ReprogControlsEvent::DivertedRawWheel { .. } => false,
    }
}

proof fn naming_is_reporting(event: ReprogControlsEvent, cid: u16)
    ensures
        reports(event, cid) == names_control(event, cid),
{
    match event {
        ReprogControlsEvent::DivertedButtons(cids) => {
            if held(cids@, cid) {
                let p = choose|p: int| 0 <= p < cids@.len() && (#[trigger] cids@[p]).0 == cid;
                assert(cids@[p] == ControlId(cid));
            }
            if names_control(event, cid) {
                let p = choose|p: int| 0 <= p < 4 && #[trigger] cids@[p] == ControlId(cid);
                assert(cids@[p].0 == cid);
            }
        },
        ReprogControlsEvent::AnalyticsKeyEvents(events) => {
            if analyzed(events@, cid) {
                let p = choose|p: int|
                    0 <= p < events@.len() && (#[trigger] events@[p]).cid.0 == cid;
                assert(events@[p].cid == ControlId(cid));
            }
            if names_control(event, cid) {
                let p = choose|p: int|
                    0 <= p < 5 && (#[trigger] events@[p]).cid == ControlId(cid);
                assert(events@[p].cid.0 == cid);
            }
        },
        _ => {},
    }
}

proof fn the_first_reported_control_counts(
    controls: Seq<ArmedControl>,
    event: ReprogControlsEvent,
    first: int,
)
    requires
        0 <= first < controls.len(),
        reports(event, controls[first].cid),
        forall|k: int| 0 <= k < first ==> !reports(event, (#[trigger] controls[k]).cid),
    ensures
        reported_host(controls, event) == Some(controls[first].host),
    decreases controls.len(),
{
    if first > 0 {
        let rest = controls.drop_first();
        assert(!reports(event, controls[0].cid));
        assert forall|k: int| 0 <= k < first - 1 implies !reports(
            event,
            (#[trigger] rest[k]).cid,
        ) by {
            assert(rest[k] == controls[k + 1]);
        }
        the_first_reported_control_counts(rest, event, first - 1);
    }
}

proof fn unreported_controls_do_not_count(controls: Seq<ArmedControl>, event: ReprogControlsEvent)
    requires
        forall|k: int| 0 <= k < controls.len() ==> !reports(event, (#[trigger] controls[k]).cid),
    ensures
        reported_host(controls, event) is None,
    decreases controls.len(),
{
    if controls.len() > 0 {
        let rest = controls.drop_first();
        assert(!reports(event, controls[0].cid));
        assert forall|k: int| 0 <= k < rest.len() implies !reports(
            event,
            (#[trigger] rest[k]).cid,
        ) by {
            assert(rest[k] == controls[k + 1]);
        }
        unreported_controls_do_not_count(rest, event);
    }
}

/// Whichever key is pressed, the press is captured for the host of that key: of
/// the first control, in the order of arming, that the event names.
pub proof fn a_press_asks_for_the_host_of_its_key(
    controls: Seq<ArmedControl>,
    event: ReprogControlsEvent,
    first: int,
)
    requires
        0 <= first < controls.len(),
        names_control(event, controls[first].cid),
        forall|k: int| 0 <= k < first ==> !names_control(event, (#[trigger] controls[k]).cid),
    ensures
        captured_press(controls, event) matches Some(captured) && captured.request.host
            == controls[first].host,
{
    naming_is_reporting(event, controls[first].cid);
    assert forall|k: int| 0 <= k < first implies !reports(event, (#[trigger] controls[k]).cid) by {
        naming_is_reporting(event, controls[k].cid);
    }
    the_first_reported_control_counts(controls, event, first);
}

/// An event that names no armed control captures nothing; motion of a pointer or
/// of a wheel names none.
pub proof fn other_events_capture_nothing(
    controls: Seq<ArmedControl>,
    event: ReprogControlsEvent,
)
    requires
        forall|k: int| 0 <= k < controls.len() ==> !names_control(event, (#[trigger] controls[k]).cid),
    ensures
        captured_press(controls, event) is None,
{
    assert forall|k: int| 0 <= k < controls.len() implies !reports(
        event,
        (#[trigger] controls[k]).cid,
    ) by {
        naming_is_reporting(event, controls[k].cid);
    }
    unreported_controls_do_not_count(controls, event);
}

/// A press of a host that some armed control selects while diverted, wherever
/// that control stands, leaves the keyboard in place: it is to be commanded, and
/// there is time to put its controls back with a retry.
pub proof fn a_diverted_press_is_to_be_commanded(
    controls: Seq<ArmedControl>,
    event: ReprogControlsEvent,
    captured: CapturedControl,
    at: int,
)
    requires
        captured_press(controls, event) == Some(captured),
        0 <= at < controls.len(),
        controls[at].host == captured.request.host,
        controls[at].mode == ReportingMode::Diverted,
    ensures
        captured.request.keyboard_transition == KeyboardHostTransition::CommandRequired,
        captured.cleanup == ControlCleanup::Full,
{
    assert(diverts(controls, captured.request.host));
}

/// A press of a host that armed controls select in analytics mode only takes
/// effect while it is reported: nothing is known of the destination yet, and
/// nothing may wait for the keyboard.
pub proof fn an_analytics_press_takes_effect_by_itself(
    controls: Seq<ArmedControl>,
    event: ReprogControlsEvent,
    captured: CapturedControl,
)
    requires
        captured_press(controls, event) == Some(captured),
        forall|k: int|
            0 <= k < controls.len() && (#[trigger] controls[k]).host == captured.request.host
                ==> controls[k].mode == ReportingMode::Analytics,
    ensures
        captured.request.keyboard_transition == (KeyboardHostTransition::AnalyticsEvent {
            host_slot: ReportedHostSlot::Unknown,
        }),
        captured.cleanup == ControlCleanup::Prompt,
{
    assert(!diverts(controls, captured.request.host));
}

/// The first of some controls that an event names, if it names one.
proof fn a_named_control_has_a_first(
    controls: Seq<ArmedControl>,
    event: ReprogControlsEvent,
    at: int,
) -> (first: int)
    requires
        0 <= at < controls.len(),
        names_control(event, controls[at].cid),
    ensures
        0 <= first <= at,
        names_control(event, controls[first].cid),
        forall|k: int| 0 <= k < first ==> !names_control(event, (#[trigger] controls[k]).cid),
    decreases at,
{
    if exists|k: int| 0 <= k < at && names_control(event, (#[trigger] controls[k]).cid) {
        let k = choose|k: int| 0 <= k < at && names_control(event, (#[trigger] controls[k]).cid);
        a_named_control_has_a_first(controls, event, k)
    } else {
        at
    }
}

/// As long as the keys that an event names select one host, the order in which
/// the controls were armed does not matter to what is captured.
pub proof fn the_order_of_arming_does_not_matter(
    left: Seq<ArmedControl>,
    right: Seq<ArmedControl>,
    event: ReprogControlsEvent,
)
    requires
        forall|control: ArmedControl| #[trigger] left.contains(control) <==> right.contains(control),
        forall|i: int, j: int|
            0 <= i < left.len() && 0 <= j < left.len() && names_control(
                event,
                (#[trigger] left[i]).cid,
            ) && names_control(event, (#[trigger] left[j]).cid) ==> left[i].host == left[j].host,
    ensures
        captured_press(left, event) == captured_press(right, event),
{
    if exists|i: int| 0 <= i < left.len() && names_control(event, (#[trigger] left[i]).cid) {
        let i = choose|i: int| 0 <= i < left.len() && names_control(event, (#[trigger] left[i]).cid);
        let a = a_named_control_has_a_first(left, event, i);
        assert(left.contains(left[a]));
        assert(right.contains(left[a]));
        let j = choose|j: int| 0 <= j < right.len() && right[j] == left[a];
        let b = a_named_control_has_a_first(right, event, j);
        assert(right.contains(right[b]));
        assert(left.contains(right[b]));
        let c = choose|c: int| 0 <= c < left.len() && left[c] == right[b];
        assert(left[c].host == left[a].host);
        a_press_asks_for_the_host_of_its_key(left, event, a);
        a_press_asks_for_the_host_of_its_key(right, event, b);
        let host = left[a].host;
        diversion_is_a_matter_of_content(left, right, host);
    } else {
        assert forall|k: int| 0 <= k < right.len() implies !names_control(
            event,
            (#[trigger] right[k]).cid,
        ) by {
            assert(right.contains(right[k]));
            assert(left.contains(right[k]));
            let c = choose|c: int| 0 <= c < left.len() && left[c] == right[k];
            assert(!names_control(event, left[c].cid));
        }
        other_events_capture_nothing(left, event);
        other_events_capture_nothing(right, event);
    }
}

proof fn diversion_is_a_matter_of_content(
    left: Seq<ArmedControl>,
    right: Seq<ArmedControl>,
    host: u8,
)
    requires
        forall|control: ArmedControl| #[trigger] left.contains(control) <==> right.contains(control),
    ensures
        diverts(left, host) == diverts(right, host),
{
    if diverts(left, host) {
        let i = choose|i: int|
            0 <= i < left.len() && (#[trigger] left[i]).host == host && left[i].mode
                == ReportingMode::Diverted;
        assert(left.contains(left[i]));
        assert(right.contains(left[i]));
        let j = choose|j: int| 0 <= j < right.len() && right[j] == left[i];
        assert(right[j].host == host && right[j].mode == ReportingMode::Diverted);
    }
    if diverts(right, host) {
        let i = choose|i: int|
            0 <= i < right.len() && (#[trigger] right[i]).host == host && right[i].mode
                == ReportingMode::Diverted;
        assert(right.contains(right[i]));
        assert(left.contains(right[i]));
        let j = choose|j: int| 0 <= j < left.len() && left[j] == right[i];
        assert(left[j].host == host && left[j].mode == ReportingMode::Diverted);
    }
}

/// A restoration writes just the bits that the mode of the control had changed,
/// each with the value it had before, and names no other bit.
pub proof fn a_restoration_writes_back_what_was(control: ArmedControl)
    ensures
        ({
            let change = restoration(control);
            let diverted = control.mode == ReportingMode::Diverted;
            &&& change.diverted == if diverted {
                Some(control.original.diverted)
            } else {
                None
            }
            &&& change.raw_xy == if diverted {
                Some(control.original.raw_xy)
            } else {
                None
            }
            &&& change.analytics_key_events == if diverted {
                None
            } else {
                Some(control.original.analytics_key_events)
            }
            &&& change.persistently_diverted is None
            &&& change.force_raw_xy is None
            &&& change.remap is None
            &&& change.raw_wheel is None
        }),
{
}

} // verus!
