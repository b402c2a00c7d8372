//! Capture sessions, host controls and announcements.

use openlogi::host_switch::arming::{
    arm_host_controls, restore_host_controls, restore_host_controls_promptly, ArmAction, ArmEvent,
    CtrlIdInfo, RestoreAction,
};
use openlogi::host_switch::controls::{
    event_host, host_control_request, restoration_change, AnalyticsKeyEvent, ArmedControl,
    CidReporting, CidReportingChange, ControlCleanup, ControlId, ReportingMode,
    ReprogControlsEvent,
};
use openlogi::host_switch::error::{BackendError, DeviceError, HostSwitchError, Timed};
use openlogi::host_switch::message::{change_host_announcement, Message, MessageHeader};
use openlogi::host_switch::request::{
    HostSwitchCaptureMode, HostSwitchRequest, HostSwitchStopReason, KeyboardHostTransition,
};
use openlogi::host_switch::session::{
    departure_request, finish_captured_control, observe_report, run_host_switch_session,
    ChangeHostCapture, ChannelReport, HostSwitchSession, Observation, SessionAction, SessionEvent,
};
use openlogi::host_switch::slots::{
    HostIndex, HostSlotReply, HostSlotStatus, ReportedHostSlot, ReportedHostSlotReader,
};

const CHANGE_HOST_INDEX: u8 = 0x04;
const HOSTS_INFO_INDEX: u8 = 0x05;

fn noisy_reporting() -> CidReporting {
    CidReporting {
        cid: ControlId(0x00d3),
        diverted: false,
        persistently_diverted: true,
        force_raw_xy: true,
        raw_xy: false,
        remap: Some(ControlId(0x1234)),
        analytics_key_events: false,
        raw_wheel: true,
    }
}

fn armed(mode: ReportingMode) -> ArmedControl {
    ArmedControl {
        cid: 0x00d3,
        host: 2,
        mode,
        original: noisy_reporting(),
    }
}

fn analytics_press() -> ReprogControlsEvent {
    let mut events = [AnalyticsKeyEvent::default(); 5];
    events[0] = AnalyticsKeyEvent {
        cid: ControlId(0x00d3),
        event: 1,
    };
    ReprogControlsEvent::AnalyticsKeyEvents(events)
}

fn diverted_press() -> ReprogControlsEvent {
    let mut cids = [ControlId::default(); 4];
    cids[0] = ControlId(0x00d3);
    ReprogControlsEvent::DivertedButtons(cids)
}

fn long_report(device_index: u8, feature_index: u8, host: u8) -> Vec<u8> {
    let mut report = vec![0u8; 20];
    report[0] = 0x11;
    report[1] = device_index;
    report[2] = feature_index;
    report[5] = host;
    report
}

fn done<T, E>(value: T) -> Timed<T, E> {
    Timed::Finished(Ok(value))
}

#[test]
fn analytics_event_marks_a_native_keyboard_transition() {
    let controls = [ArmedControl {
        cid: 0x00d3,
        host: 2,
        mode: ReportingMode::Analytics,
        original: noisy_reporting(),
    }];
    let mut events = [AnalyticsKeyEvent::default(); 5];
    events[0] = AnalyticsKeyEvent {
        cid: ControlId(0x00d3),
        event: 1,
    };
    let captured = host_control_request(&controls, ReprogControlsEvent::AnalyticsKeyEvents(events))
        .expect("analytics host press");

    assert_eq!(captured.request.host, 2);
    assert_eq!(
        captured.request.keyboard_transition,
        KeyboardHostTransition::AnalyticsEvent {
            host_slot: ReportedHostSlot::Unknown,
        },
        "an undiverted analytics control may begin its native transition immediately"
    );
    assert_eq!(captured.cleanup, ControlCleanup::Prompt);
}

#[test]
fn diverted_event_requires_a_commanded_transition() {
    let controls = [ArmedControl {
        cid: 0x00d3,
        host: 2,
        mode: ReportingMode::Diverted,
        original: noisy_reporting(),
    }];
    let mut cids = [ControlId::default(); 4];
    cids[0] = ControlId(0x00d3);
    let captured = host_control_request(&controls, ReprogControlsEvent::DivertedButtons(cids))
        .expect("diverted host press");

    assert_eq!(captured.request.host, 2);
    assert_eq!(
        captured.request.keyboard_transition,
        KeyboardHostTransition::CommandRequired,
    );
    assert_eq!(captured.cleanup, ControlCleanup::Full);
}

#[test]
fn diverted_cleanup_restores_only_the_original_temporary_bits() {
    let change = restoration_change(ArmedControl {
        cid: 0x00d3,
        host: 2,
        mode: ReportingMode::Diverted,
        original: CidReporting {
            diverted: true,
            raw_xy: true,
            ..noisy_reporting()
        },
    });

    assert_eq!(change.diverted, Some(true));
    assert_eq!(change.raw_xy, Some(true));
    assert_eq!(change.analytics_key_events, None);
    assert_eq!(change.persistently_diverted, None);
    assert_eq!(change.remap, None);
}

#[test]
fn analytics_cleanup_restores_the_original_analytics_bit() {
    let change = restoration_change(ArmedControl {
        cid: 0x00d3,
        host: 2,
        mode: ReportingMode::Analytics,
        original: CidReporting {
            analytics_key_events: true,
            ..noisy_reporting()
        },
    });

    assert_eq!(change.analytics_key_events, Some(true));
    assert_eq!(change.diverted, None);
    assert_eq!(change.raw_xy, None);
}

#[test]
fn events_without_an_armed_control_are_no_presses() {
    let controls = [armed(ReportingMode::Diverted)];
    assert_eq!(
        event_host(
            &controls,
            ReprogControlsEvent::DivertedButtons([ControlId(0x00d4); 4])
        ),
        None
    );
    assert_eq!(event_host(&controls, diverted_press()), Some(2));
    assert_eq!(event_host(&[], diverted_press()), None);
}

#[test]
fn change_host_announcement_selects_the_reported_destination() {
    let mut payload = [0; 16];
    payload[0] = 0;
    payload[1] = 1;
    let announcement = Message {
        header: MessageHeader {
            device_index: 1,
            feature_index: 9,
            function_id: 0,
            software_id: 0,
        },
        payload,
    };

    assert_eq!(change_host_announcement(&announcement, 1, 9, 3), Some(1));
}

#[test]
fn change_host_announcement_rejects_foreign_or_malformed_messages() {
    let announcement = |device_index, feature_index, function_id, software_id, target_host| {
        let mut payload = [0; 16];
        payload[1] = target_host;
        Message {
            header: MessageHeader {
                device_index,
                feature_index,
                function_id,
                software_id,
            },
            payload,
        }
    };

    for message in [
        announcement(2, 9, 0, 0, 1),
        announcement(1, 8, 0, 0, 1),
        announcement(1, 9, 1, 0, 1),
        announcement(1, 9, 0, 1, 1),
        announcement(1, 9, 0, 0, 3),
    ] {
        assert_eq!(change_host_announcement(&message, 1, 9, 3), None);
    }
}

#[test]
fn raw_reports_are_decoded_before_they_are_read() {
    let capture = Some(ChangeHostCapture {
        feature_index: CHANGE_HOST_INDEX,
        slot_reader: ReportedHostSlotReader::Unsupported,
    });
    let observe =
        |bytes: &[u8]| observe_report(false, bytes, None, &[], 1, capture);
    assert_eq!(
        observe(&long_report(1, CHANGE_HOST_INDEX, 2)),
        Some(Observation::Departure(2))
    );
    assert_eq!(
        observe(&[0x10, 1, CHANGE_HOST_INDEX, 0, 0, 1, 0]),
        Some(Observation::Departure(1)),
        "a short report carries an announcement as well"
    );
    let mut answered = long_report(1, CHANGE_HOST_INDEX, 2);
    answered[3] = 0x01;
    assert_eq!(observe(&answered), None, "a software id marks an answer");
    let mut other_function = long_report(1, CHANGE_HOST_INDEX, 2);
    other_function[3] = 0x10;
    assert_eq!(observe(&other_function), None);
    let mut wrong_id = long_report(1, CHANGE_HOST_INDEX, 2);
    wrong_id[0] = 0x12;
    assert_eq!(observe(&wrong_id), None);
    assert_eq!(observe(&long_report(1, CHANGE_HOST_INDEX, 2)[..19]), None);
    assert_eq!(observe(&[]), None);
    assert_eq!(
        observe_report(
            true,
            &long_report(1, CHANGE_HOST_INDEX, 2),
            None,
            &[],
            1,
            capture
        ),
        None,
        "an answer to a request announces nothing"
    );
    assert_eq!(
        observe_report(
            false,
            &long_report(1, CHANGE_HOST_INDEX, 2),
            None,
            &[],
            1,
            None
        ),
        None
    );
}

#[test]
fn control_events_take_precedence_over_announcements() {
    let capture = Some(ChangeHostCapture {
        feature_index: CHANGE_HOST_INDEX,
        slot_reader: ReportedHostSlotReader::Unsupported,
    });
    let unrelated = ReprogControlsEvent::DivertedButtons([ControlId(0x0050); 4]);
    assert_eq!(
        observe_report(
            false,
            &long_report(1, CHANGE_HOST_INDEX, 2),
            Some(unrelated),
            &[armed(ReportingMode::Diverted)],
            1,
            capture
        ),
        None
    );
}

#[test]
fn event_time_samples_complete_a_request() {
    let captured = host_control_request(&[armed(ReportingMode::Analytics)], analytics_press())
        .expect("analytics host press");
    assert_eq!(
        finish_captured_control(captured, ReportedHostSlot::Empty).keyboard_transition,
        KeyboardHostTransition::AnalyticsEvent {
            host_slot: ReportedHostSlot::Empty
        }
    );
    let captured = host_control_request(&[armed(ReportingMode::Diverted)], diverted_press())
        .expect("diverted host press");
    assert_eq!(
        finish_captured_control(captured, ReportedHostSlot::Empty),
        HostSwitchRequest {
            host: 2,
            keyboard_transition: KeyboardHostTransition::CommandRequired
        }
    );
    let departure = departure_request(2, ReportedHostSlot::Paired);
    assert_eq!(departure.host, 2);
    assert!(departure.keyboard_transition.announcement_observed());
}

/// Brings an announcement session to the point where it listens.
fn listening_announcement_session(
    lookup: Timed<Option<u8>, String>,
) -> HostSwitchSession {
    let (mut session, action) =
        run_host_switch_session(1, HostSwitchCaptureMode::ChangeHostAnnouncement);
    assert!(matches!(action, SessionAction::OpenChannel));
    assert!(matches!(
        session.advance(SessionEvent::ChannelOpened(done(Some(())))),
        SessionAction::OpenDevice
    ));
    assert!(matches!(
        session.advance(SessionEvent::DeviceOpened(done(()))),
        SessionAction::LocateChangeHost
    ));
    assert!(matches!(
        session.advance(SessionEvent::ChangeHostLocated(done(Some(
            CHANGE_HOST_INDEX
        )))),
        SessionAction::LocateHostsInfo
    ));
    assert!(matches!(
        session.advance(SessionEvent::HostsInfoLocated(lookup)),
        SessionAction::Listen
    ));
    session
}

fn announced(session: &mut HostSwitchSession) -> SessionAction {
    announced_for(session, 2)
}

fn announced_for(session: &mut HostSwitchSession, host: u8) -> SessionAction {
    session.advance(SessionEvent::Reported(ChannelReport {
        matched: false,
        bytes: long_report(1, CHANGE_HOST_INDEX, host),
        event: None,
    }))
}

fn finished_transition(action: SessionAction) -> KeyboardHostTransition {
    match action {
        SessionAction::Finish(Ok(Some(request))) => {
            assert_eq!(request.host, 2);
            request.keyboard_transition
        }
        _ => panic!("the session should end with a request"),
    }
}

#[test]
fn announcement_capture_resolves_the_current_runtime_feature_index() {
    let mut session = listening_announcement_session(done(None));
    assert_eq!(
        session.capture.expect("ChangeHost feature").feature_index,
        CHANGE_HOST_INDEX
    );
    assert_eq!(
        finished_transition(announced(&mut session)),
        KeyboardHostTransition::AlreadyDeparting {
            host_slot: ReportedHostSlot::Unknown,
        }
    );
}

#[test]
fn announcement_capture_validates_pairing_status_at_the_event_boundary() {
    for (asked, status, host_slot) in [
        (1, HostSlotStatus::Paired, ReportedHostSlot::Paired),
        (2, HostSlotStatus::Empty, ReportedHostSlot::Empty),
    ] {
        let mut session = listening_announcement_session(done(Some(HOSTS_INFO_INDEX)));
        match announced_for(&mut session, asked) {
            SessionAction::ReadSlot { slots_index, host } => {
                assert_eq!(slots_index, HOSTS_INFO_INDEX);
                assert_eq!(host, asked);
            }
            _ => panic!("the slot should be read"),
        }
        let action = session.advance(SessionEvent::SlotRead(done(HostSlotReply {
            host_index: HostIndex::Slot(asked),
            status,
        })));
        match action {
            SessionAction::Finish(Ok(Some(request))) => {
                assert_eq!(request.host, asked);
                assert_eq!(
                    request.keyboard_transition,
                    KeyboardHostTransition::AlreadyDeparting { host_slot }
                );
            }
            _ => panic!("the session should end with a request"),
        }
    }
}

#[test]
fn announcement_slot_read_error_is_reported_as_unknown() {
    for read in [Timed::Finished(Err("Busy".to_string())), Timed::Elapsed] {
        let mut session = listening_announcement_session(done(Some(HOSTS_INFO_INDEX)));
        announced(&mut session);
        assert_eq!(
            finished_transition(session.advance(SessionEvent::SlotRead(read))),
            KeyboardHostTransition::AlreadyDeparting {
                host_slot: ReportedHostSlot::Unknown,
            }
        );
    }
}

#[test]
fn announcement_lookup_error_is_reported_as_unknown() {
    let mut session =
        listening_announcement_session(Timed::Finished(Err("Busy".to_string())));
    assert_eq!(
        finished_transition(announced(&mut session)),
        KeyboardHostTransition::AlreadyDeparting {
            host_slot: ReportedHostSlot::Unknown,
        }
    );
}

#[test]
fn an_announcement_session_ends_quietly_when_stopped() {
    let mut session = listening_announcement_session(done(None));
    assert!(matches!(
        session.advance(SessionEvent::Stopped(Some(HostSwitchStopReason::Graceful))),
        SessionAction::Finish(Ok(None))
    ));
    assert!(matches!(announced(&mut session), SessionAction::Ignore));
}

/// Brings a full session to the point where it listens.
fn listening_full_session(mode: ReportingMode, lookup: Option<u8>) -> HostSwitchSession {
    let (mut session, _) = run_host_switch_session(1, HostSwitchCaptureMode::Full);
    session.advance(SessionEvent::ChannelOpened(done(Some(()))));
    assert!(matches!(
        session.advance(SessionEvent::DeviceOpened(done(()))),
        SessionAction::LocateControls
    ));
    assert!(matches!(
        session.advance(SessionEvent::ControlsLocated(done(Some(0x09)))),
        SessionAction::LocateChangeHost
    ));
    assert!(matches!(
        session.advance(SessionEvent::ChangeHostLocated(done(Some(
            CHANGE_HOST_INDEX
        )))),
        SessionAction::LocateHostsInfo
    ));
    assert!(matches!(
        session.advance(SessionEvent::HostsInfoLocated(done(lookup))),
        SessionAction::Arm {
            controls_index: 0x09
        }
    ));
    assert!(matches!(
        session.advance(SessionEvent::Armed(Ok(vec![armed(mode)]))),
        SessionAction::Listen
    ));
    session
}

fn pressed(session: &mut HostSwitchSession, event: ReprogControlsEvent) -> SessionAction {
    let mut bytes = long_report(1, 0x09, 0);
    bytes[5] = 0xd3;
    session.advance(SessionEvent::Reported(ChannelReport {
        matched: false,
        bytes,
        event: Some(event),
    }))
}

#[test]
fn analytics_event_samples_pairing_at_the_event_boundary() {
    let mut session = listening_full_session(ReportingMode::Analytics, Some(HOSTS_INFO_INDEX));
    assert!(matches!(
        pressed(&mut session, analytics_press()),
        SessionAction::ReadSlot {
            slots_index: HOSTS_INFO_INDEX,
            host: 2
        }
    ));
    let action = session.advance(SessionEvent::SlotRead(done(HostSlotReply {
        host_index: HostIndex::Slot(2),
        status: HostSlotStatus::Empty,
    })));
    match action {
        SessionAction::Restore {
            armed: controls,
            cleanup,
        } => {
            assert_eq!(controls, [armed(ReportingMode::Analytics)]);
            assert_eq!(cleanup, ControlCleanup::Prompt);
        }
        _ => panic!("the controls should be restored first"),
    }
    assert_eq!(
        finished_transition(session.advance(SessionEvent::Restored)),
        KeyboardHostTransition::AnalyticsEvent {
            host_slot: ReportedHostSlot::Empty,
        }
    );
}

#[test]
fn a_diverted_press_is_restored_without_a_sample() {
    let mut session = listening_full_session(ReportingMode::Diverted, Some(HOSTS_INFO_INDEX));
    match pressed(&mut session, diverted_press()) {
        SessionAction::Restore { cleanup, .. } => assert_eq!(cleanup, ControlCleanup::Full),
        _ => panic!("the controls should be restored at once"),
    }
    assert_eq!(
        finished_transition(session.advance(SessionEvent::Restored)),
        KeyboardHostTransition::CommandRequired
    );
}

#[test]
fn a_departing_keyboard_is_restored_promptly() {
    for mode in [ReportingMode::Analytics, ReportingMode::Diverted] {
        let mut session = listening_full_session(mode, None);
        match announced(&mut session) {
            SessionAction::Restore {
                armed: controls,
                cleanup,
            } => {
                assert_eq!(controls, [armed(mode)]);
                assert_eq!(cleanup, ControlCleanup::Prompt);
            }
            _ => panic!("the controls should be restored first"),
        }
        assert_eq!(
            finished_transition(session.advance(SessionEvent::Restored)),
            KeyboardHostTransition::AlreadyDeparting {
                host_slot: ReportedHostSlot::Unknown,
            }
        );
    }
}

#[test]
fn a_sampled_departure_survives_the_restoration() {
    let mut session = listening_full_session(ReportingMode::Analytics, Some(HOSTS_INFO_INDEX));
    assert!(matches!(
        announced(&mut session),
        SessionAction::ReadSlot {
            slots_index: HOSTS_INFO_INDEX,
            host: 2
        }
    ));
    assert!(matches!(
        session.advance(SessionEvent::SlotRead(done(HostSlotReply {
            host_index: HostIndex::Slot(2),
            status: HostSlotStatus::Paired,
        }))),
        SessionAction::Restore {
            cleanup: ControlCleanup::Prompt,
            ..
        }
    ));
    assert_eq!(
        finished_transition(session.advance(SessionEvent::Restored)),
        KeyboardHostTransition::AlreadyDeparting {
            host_slot: ReportedHostSlot::Paired,
        }
    );
}

#[test]
fn only_a_graceful_stop_restores_controls() {
    let mut session = listening_full_session(ReportingMode::Diverted, None);
    assert!(matches!(
        session.advance(SessionEvent::Stopped(Some(HostSwitchStopReason::Graceful))),
        SessionAction::Restore {
            cleanup: ControlCleanup::Full,
            ..
        }
    ));
    assert!(matches!(
        session.advance(SessionEvent::Restored),
        SessionAction::Finish(Ok(None))
    ));
    for reason in [Some(HostSwitchStopReason::DeviceLost), None] {
        let mut session = listening_full_session(ReportingMode::Diverted, None);
        assert!(matches!(
            session.advance(SessionEvent::Stopped(reason)),
            SessionAction::Finish(Ok(None))
        ));
    }
}

#[test]
fn keyboards_that_cannot_be_captured_are_told_apart() {
    let (mut session, _) = run_host_switch_session(1, HostSwitchCaptureMode::Full);
    assert!(matches!(
        session.advance(SessionEvent::ChannelOpened(done(None))),
        SessionAction::Finish(Err(HostSwitchError::KeyboardNotFound))
    ));
    let (mut session, _) = run_host_switch_session(1, HostSwitchCaptureMode::Full);
    assert!(matches!(
        session.advance(SessionEvent::ChannelOpened(Timed::Finished(Err(
            BackendError::Disconnected
        )))),
        SessionAction::Finish(Err(HostSwitchError::Hid(BackendError::Disconnected)))
    ));
    let (mut session, _) = run_host_switch_session(1, HostSwitchCaptureMode::Full);
    session.advance(SessionEvent::ChannelOpened(done(Some(()))));
    assert!(matches!(
        session.advance(SessionEvent::DeviceOpened(Timed::Finished(Err(
            DeviceError::UnsupportedProtocolVersion
        )))),
        SessionAction::Finish(Err(HostSwitchError::Device(
            DeviceError::UnsupportedProtocolVersion
        )))
    ));
    let (mut session, _) = run_host_switch_session(1, HostSwitchCaptureMode::Full);
    session.advance(SessionEvent::ChannelOpened(done(Some(()))));
    session.advance(SessionEvent::DeviceOpened(done(())));
    session.advance(SessionEvent::ControlsLocated(done(Some(0x09))));
    assert!(
        matches!(
            session.advance(SessionEvent::ChangeHostLocated(Timed::Elapsed)),
            SessionAction::Arm {
                controls_index: 0x09
            }
        ),
        "announcements are optional where controls can be armed"
    );
    assert!(matches!(
        session.advance(SessionEvent::Armed(Ok(Vec::new()))),
        SessionAction::Finish(Err(HostSwitchError::UnsupportedKeyboard))
    ));
    let (mut session, _) =
        run_host_switch_session(1, HostSwitchCaptureMode::ChangeHostAnnouncement);
    session.advance(SessionEvent::ChannelOpened(done(Some(()))));
    session.advance(SessionEvent::DeviceOpened(done(())));
    assert!(matches!(
        session.advance(SessionEvent::ChangeHostLocated(done(None))),
        SessionAction::Finish(Err(HostSwitchError::UnsupportedKeyboard))
    ));
}

#[test]
fn arming_records_each_control_before_it_is_written() {
    let (mut machine, action) = arm_host_controls();
    assert!(matches!(action, ArmAction::ReadCount));
    assert!(matches!(
        machine.advance(ArmEvent::Counted(done(2))),
        ArmAction::ReadInfo { index: 0 }
    ));
    let plain = CtrlIdInfo {
        cid: 0x0050,
        task_id: 0x0038,
        host: None,
        divertable: true,
        analytics: true,
    };
    assert!(
        matches!(
            machine.advance(ArmEvent::InfoRead(done(plain))),
            ArmAction::ReadInfo { index: 1 }
        ),
        "a control that switches no host is left alone"
    );
    let host_key = CtrlIdInfo {
        cid: 0x00d3,
        task_id: 0x00b0,
        host: Some(2),
        divertable: true,
        analytics: true,
    };
    assert!(matches!(
        machine.advance(ArmEvent::InfoRead(done(host_key))),
        ArmAction::ReadReporting { cid: 0x00d3 }
    ));
    assert!(
        matches!(
            machine.advance(ArmEvent::ReportingRead(done(noisy_reporting()))),
            ArmAction::Divert { cid: 0x00d3 }
        ),
        "a control that can be diverted is diverted"
    );
    match machine.advance(ArmEvent::Diverted(Timed::Elapsed)) {
        ArmAction::RollBack {
            armed: controls,
            error,
        } => {
            assert_eq!(controls, [armed(ReportingMode::Diverted)]);
            assert!(matches!(
                error,
                HostSwitchError::TimedOut {
                    operation: "diverting host control"
                }
            ));
        }
        _ => panic!("the write that failed must be rolled back as well"),
    }
}

#[test]
fn analytics_is_enabled_where_diversion_is_not_possible() {
    let (mut machine, _) = arm_host_controls();
    machine.advance(ArmEvent::Counted(done(1)));
    machine.advance(ArmEvent::InfoRead(done(CtrlIdInfo {
        cid: 0x00d3,
        task_id: 0x00b0,
        host: Some(2),
        divertable: false,
        analytics: true,
    })));
    match machine.advance(ArmEvent::ReportingRead(done(noisy_reporting()))) {
        ArmAction::EnableAnalytics { cid, change } => {
            assert_eq!(cid, 0x00d3);
            assert_eq!(
                change,
                CidReportingChange {
                    analytics_key_events: Some(true),
                    ..CidReportingChange::default()
                }
            );
        }
        _ => panic!("analytics should be enabled"),
    }
    match machine.advance(ArmEvent::AnalyticsEnabled(done(()))) {
        ArmAction::Armed(controls) => assert_eq!(controls, [armed(ReportingMode::Analytics)]),
        _ => panic!("arming should be complete"),
    }
}

#[test]
fn full_restoration_tries_each_control_twice() {
    let (mut machine, action) = restore_host_controls(vec![armed(ReportingMode::Diverted)]);
    let expected = restoration_change(armed(ReportingMode::Diverted));
    assert!(
        matches!(action, RestoreAction::Write { cid: 0x00d3, change } if change == expected)
    );
    assert!(matches!(
        machine.advance(false),
        RestoreAction::Write { cid: 0x00d3, .. }
    ));
    assert!(matches!(machine.advance(false), RestoreAction::Done));
    assert!(matches!(machine.next(), RestoreAction::Done));
}

#[test]
fn prompt_analytics_cleanup_restores_an_answering_keyboard() {
    let (mut machine, action) =
        restore_host_controls_promptly(vec![armed(ReportingMode::Analytics)]);
    match action {
        RestoreAction::Write { cid, change } => {
            assert_eq!(cid, 0x00d3);
            assert_eq!(
                change.analytics_key_events,
                Some(false),
                "analytics reporting must be explicitly restored to its original false value"
            );
        }
        RestoreAction::Done => panic!("analytics cleanup must write the original state"),
    }
    assert!(matches!(machine.advance(true), RestoreAction::Done));
}

#[test]
fn prompt_analytics_cleanup_does_not_wait_for_a_departing_keyboard() {
    let (mut machine, action) =
        restore_host_controls_promptly(vec![armed(ReportingMode::Analytics)]);
    assert!(matches!(action, RestoreAction::Write { .. }));
    assert!(
        matches!(machine.advance(false), RestoreAction::Done),
        "prompt cleanup must not retry a keyboard that is already departing"
    );
}

#[test]
fn every_armed_control_is_sent_its_restoration() {
    let first = armed(ReportingMode::Analytics);
    let second = ArmedControl {
        cid: 0x00d4,
        mode: ReportingMode::Diverted,
        ..first
    };
    for (begun, writes) in [
        (restore_host_controls(vec![first, second]), [0x00d3, 0x00d3, 0x00d4, 0x00d4].as_slice()),
        (restore_host_controls_promptly(vec![first, second]), [0x00d3, 0x00d4].as_slice()),
    ] {
        let (mut machine, mut action) = begun;
        let mut sent = Vec::new();
        while let RestoreAction::Write { cid, change } = action {
            let control = if cid == first.cid { first } else { second };
            assert_eq!(change, restoration_change(control));
            sent.push(cid);
            action = machine.advance(false);
        }
        assert_eq!(sent, writes);
    }
}

#[test]
fn exactly_the_host_controls_that_can_report_are_armed() {
    let control = |cid, host, divertable, analytics| CtrlIdInfo {
        cid,
        task_id: 0x00b0,
        host,
        divertable,
        analytics,
    };
    let table = [
        control(0x00d1, Some(0), true, false),
        control(0x0050, None, true, true),
        control(0x00d2, Some(1), false, false),
        control(0x00d3, Some(2), false, true),
    ];
    let (mut machine, mut action) = arm_host_controls();
    let controls = loop {
        let event = match action {
            ArmAction::ReadCount => ArmEvent::Counted(done(4)),
            ArmAction::ReadInfo { index } => ArmEvent::InfoRead(done(table[usize::from(index)])),
            ArmAction::ReadReporting { .. } => ArmEvent::ReportingRead(done(noisy_reporting())),
            ArmAction::Divert { .. } => ArmEvent::Diverted(done(())),
            ArmAction::EnableAnalytics { .. } => ArmEvent::AnalyticsEnabled(done(())),
            ArmAction::Armed(controls) => break controls,
            ArmAction::RollBack { .. } | ArmAction::Ignore => panic!("arming should succeed"),
        };
        action = machine.advance(event);
    };
    let arrangement: Vec<(u16, u8, ReportingMode)> = controls
        .iter()
        .map(|control| (control.cid, control.host, control.mode))
        .collect();
    assert_eq!(
        arrangement,
        [
            (0x00d1, 0, ReportingMode::Diverted),
            (0x00d3, 2, ReportingMode::Analytics),
        ]
    );
}
