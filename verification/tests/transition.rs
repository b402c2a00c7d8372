//! Linked transitions against scripted devices.

use openlogi::host_switch::error::{BackendError, DeviceError, HostSwitchError, Timed};
use openlogi::host_switch::prepare::{
    host_change_required, prepare_announced_host_change_on, prepare_host_change_on,
    prepare_host_change_on_with_requirement, HostInfo, HostPreparation, HostSlotRequirement,
    PrepareAction, PrepareEvent, PreparedHostChange,
};
use openlogi::host_switch::request::KeyboardHostTransition;
use openlogi::host_switch::slots::{
    read_host_slot, HostIndex, HostSlotReply, HostSlotStatus, ReportedHostSlot,
    ReportedHostSlotReader,
};
use openlogi::host_switch::transition::{
    shares_channel, switch_linked_hosts, unreachable_transition_error, SwitchAction, SwitchEvent,
};
use openlogi::route::DeviceRoute;

const CHANGE_HOST_INDEX: u8 = 0x04;
const HOSTS_INFO_INDEX: u8 = 0x05;

/// What a scripted device does when asked about its host slots.
#[derive(Clone, Copy, PartialEq, Eq)]
enum SlotStatus {
    Reported,
    AllPaired,
    Unimplemented,
    LookupErrors,
    ReadErrors,
    ReadTimesOut,
    Unrecognized,
}

/// Drives a validation against a three-channel device on host 0, paired on
/// hosts 0 and 1 only, and tells how often its slots were consulted.
fn drive(
    begun: (HostPreparation, PrepareAction),
    slots: SlotStatus,
) -> (Result<PreparedHostChange, HostSwitchError>, usize) {
    let (mut machine, mut action) = begun;
    let mut consulted = 0;
    loop {
        let event = match action {
            PrepareAction::OpenDevice => PrepareEvent::DeviceOpened(Timed::Finished(Ok(()))),
            PrepareAction::LocateChangeHost => {
                PrepareEvent::FeatureLocated(Timed::Finished(Ok(Some(CHANGE_HOST_INDEX))))
            }
            PrepareAction::ReadHostInfo { feature_index } => {
                assert_eq!(feature_index, CHANGE_HOST_INDEX);
                PrepareEvent::HostInfoRead(Timed::Finished(Ok(HostInfo {
                    host_count: 3,
                    current_host: 0,
                })))
            }
            PrepareAction::LocateHostsInfo => {
                consulted += 1;
                PrepareEvent::SlotFeatureLocated(Timed::Finished(match slots {
                    SlotStatus::Unimplemented => Ok(None),
                    SlotStatus::LookupErrors => Err("Busy".to_string()),
                    _ => Ok(Some(HOSTS_INFO_INDEX)),
                }))
            }
            PrepareAction::ReadSlot { slots_index, host } => {
                assert_eq!(slots_index, HOSTS_INFO_INDEX);
                consulted += 1;
                PrepareEvent::SlotRead(match slots {
                    SlotStatus::ReadErrors => Timed::Finished(Err("Busy".to_string())),
                    SlotStatus::ReadTimesOut => Timed::Elapsed,
                    _ => Timed::Finished(Ok(HostSlotReply {
                        host_index: HostIndex::Slot(host),
                        status: match slots {
                            SlotStatus::Unrecognized => HostSlotStatus::Unrecognized,
                            SlotStatus::AllPaired => HostSlotStatus::Paired,
                            _ if host < 2 => HostSlotStatus::Paired,
                            _ => HostSlotStatus::Empty,
                        },
                    })),
                })
            }
            PrepareAction::Finish(result) => return (result, consulted),
            PrepareAction::Ignore => panic!("the validation ignored an answer"),
        };
        action = machine.advance(event);
    }
}

fn direct(product_id: u16) -> DeviceRoute {
    DeviceRoute::Direct {
        vendor_id: 0x046d,
        product_id,
    }
}

struct Outcome {
    result: Result<bool, HostSwitchError>,
    target_moves: Vec<u8>,
    keyboard_moves: Vec<u8>,
    keyboard_opened: bool,
}

/// Runs a transition with one follower that reports no slots. A keyboard
/// without a script cannot be opened.
fn transition(keyboard: Option<SlotStatus>, host: u8, how: KeyboardHostTransition) -> Outcome {
    let (mut machine, mut action) =
        switch_linked_hosts(direct(0xb369), vec![direct(0xb042)], host, how);
    let mut target_moves = Vec::new();
    let mut keyboard_moves = Vec::new();
    let mut keyboard_opened = false;
    loop {
        let event = match action {
            SwitchAction::OpenKeyboard => {
                keyboard_opened = true;
                SwitchEvent::KeyboardOpened(Timed::Finished(match keyboard {
                    Some(_) => Ok(Some(())),
                    None => Err(BackendError::Disconnected),
                }))
            }
            SwitchAction::PrepareKeyboard {
                device_index,
                host: destination,
                requirement,
            } => {
                assert_eq!((device_index, destination), (0xff, host));
                let begun =
                    prepare_host_change_on_with_requirement(device_index, host, requirement);
                let slots = keyboard.expect("an unreachable keyboard is not validated");
                SwitchEvent::Prepared(drive(begun, slots).0)
            }
            SwitchAction::OpenTarget { index } => {
                assert_eq!(index, 0);
                SwitchEvent::TargetOpened(Timed::Finished(Ok(Some(()))))
            }
            SwitchAction::PrepareTarget {
                index,
                on_keyboard_channel,
                device_index,
                host: destination,
                requirement,
            } => {
                assert_eq!(index, 0);
                assert!(!on_keyboard_channel);
                assert_eq!((device_index, destination), (0xff, host));
                let begun =
                    prepare_host_change_on_with_requirement(device_index, host, requirement);
                SwitchEvent::Prepared(drive(begun, SlotStatus::Unimplemented).0)
            }
            SwitchAction::CommandTarget { change, .. } => {
                target_moves.push(change.host);
                SwitchEvent::Commanded(Timed::Finished(Ok(())))
            }
            SwitchAction::CommandKeyboard { change } => {
                keyboard_moves.push(change.host);
                SwitchEvent::Commanded(Timed::Finished(Ok(())))
            }
            SwitchAction::Finish(result) => {
                return Outcome {
                    result,
                    target_moves,
                    keyboard_moves,
                    keyboard_opened,
                }
            }
            SwitchAction::Ignore => panic!("the transition ignored an answer"),
        };
        action = machine.advance(event);
    }
}

#[test]
fn receiver_slots_share_one_channel() {
    let keyboard = DeviceRoute::Bolt {
        receiver_uid: "AABB".into(),
        slot: 1,
    };
    let mouse = DeviceRoute::Bolt {
        receiver_uid: "aabb".into(),
        slot: 2,
    };
    assert!(shares_channel(&keyboard, &mouse));
}

#[test]
fn direct_devices_do_not_share_channels() {
    let route = DeviceRoute::Direct {
        vendor_id: 0x046d,
        product_id: 0xb025,
    };
    assert!(!shares_channel(&route, &route));
}

#[test]
fn other_receivers_do_not_share_channels() {
    let left = DeviceRoute::Bolt {
        receiver_uid: "AABB".into(),
        slot: 1,
    };
    let right = DeviceRoute::Bolt {
        receiver_uid: "AABC".into(),
        slot: 1,
    };
    assert!(!shares_channel(&left, &right));
    assert_eq!(left.device_index(), 1);
    assert_eq!(direct(0xb042).device_index(), 0xff);
    assert!(left.same_route(&left.clone()));
    assert!(!left.same_route(&right));
}

#[test]
fn current_host_does_not_require_a_change() {
    assert!(matches!(host_change_required(1, 3, 1), Ok(false)));
}

#[test]
fn different_valid_host_requires_a_change() {
    assert!(matches!(host_change_required(0, 3, 2), Ok(true)));
}

#[test]
fn host_outside_device_range_is_rejected() {
    assert!(
        host_change_required(0, 2, 2).is_err(),
        "host 2 is outside a device that reports 2 hosts and must be rejected"
    );
}

#[test]
fn a_host_out_of_range_is_named() {
    match host_change_required(0, 12, 200) {
        Err(HostSwitchError::Hidpp(text)) => {
            assert_eq!(text, "host 200 is outside device host count 12")
        }
        other => panic!("unexpected result {other:?}"),
    }
}

#[test]
fn only_departure_errors_mark_a_device_unreachable() {
    assert!(HostSwitchError::KeyboardNotFound.is_device_unreachable());
    assert!(HostSwitchError::Hid(BackendError::Disconnected).is_device_unreachable());
    assert!(HostSwitchError::Device(DeviceError::DeviceNotFound).is_device_unreachable());
    assert!(
        !HostSwitchError::Hidpp("DeviceNotFound".into()).is_device_unreachable(),
        "formatted debug text must not classify a departure"
    );

    assert!(
        !HostSwitchError::HostSlotEmpty { host: 2 }.is_device_unreachable(),
        "an unpaired slot must never be classified as a departure"
    );
    assert!(
        !HostSwitchError::TimedOut {
            operation: "probing"
        }
        .is_device_unreachable()
    );
    assert!(
        !HostSwitchError::Hid(BackendError::Backend("permission denied".into()))
            .is_device_unreachable()
    );
}

#[test]
fn failures_are_worded() {
    let cases = [
        (
            HostSwitchError::Hid(BackendError::Disconnected),
            "HID transport error",
        ),
        (
            HostSwitchError::KeyboardNotFound,
            "configured keyboard is not connected",
        ),
        (
            HostSwitchError::TargetNotFound,
            "configured linked device is not connected",
        ),
        (
            HostSwitchError::Hidpp("reading current host: Busy".into()),
            "HID++ protocol error: reading current host: Busy",
        ),
        (
            HostSwitchError::TimedOut {
                operation: "writing current host",
            },
            "HID++ operation timed out while writing current host",
        ),
        (
            HostSwitchError::UnsupportedKeyboard,
            "keyboard exposes no reportable host switch controls",
        ),
        (
            HostSwitchError::HostSlotEmpty { host: 2 },
            "host 2 is not paired on this device",
        ),
        (
            HostSwitchError::Device(DeviceError::DeviceNotFound),
            "HID++ device error: there is no device with the specified device index",
        ),
    ];
    for (error, text) in cases {
        assert_eq!(error.message(), text);
    }
}

#[test]
fn a_slot_is_proved_only_by_its_own_reply() {
    let reply = |host_index, status| Ok(HostSlotReply { host_index, status });
    assert_eq!(
        read_host_slot(1, reply(HostIndex::Slot(1), HostSlotStatus::Paired)),
        ReportedHostSlot::Paired
    );
    assert_eq!(
        read_host_slot(1, reply(HostIndex::Slot(1), HostSlotStatus::Empty)),
        ReportedHostSlot::Empty
    );
    assert_eq!(
        read_host_slot(1, reply(HostIndex::Slot(2), HostSlotStatus::Paired)),
        ReportedHostSlot::Unknown
    );
    assert_eq!(
        read_host_slot(1, reply(HostIndex::Current, HostSlotStatus::Paired)),
        ReportedHostSlot::Unknown
    );
    assert_eq!(
        read_host_slot(1, Err(HostSwitchError::KeyboardNotFound)),
        ReportedHostSlot::Unknown
    );
    let reader = ReportedHostSlotReader::resolve(Ok(Some(5)));
    assert!(reader.is_supported());
    assert_eq!(reader.read_one(), Ok(5));
    let reader = ReportedHostSlotReader::resolve(Ok(None));
    assert_eq!(reader, ReportedHostSlotReader::Unsupported);
    assert_eq!(reader.read_one(), Err(ReportedHostSlot::Unknown));
    let reader = ReportedHostSlotReader::resolve(Err(HostSwitchError::TargetNotFound));
    assert_eq!(reader, ReportedHostSlotReader::Unavailable);
}

#[test]
fn switching_to_an_unpaired_slot_is_refused() {
    let (result, _) = drive(prepare_host_change_on(1, 2), SlotStatus::Reported);
    let Err(error) = result else {
        panic!("an unpaired slot must not be switched to");
    };
    assert!(
        matches!(error, HostSwitchError::HostSlotEmpty { host: 2 }),
        "got {error:?}"
    );
}

#[test]
fn switching_to_a_paired_slot_proceeds() {
    let change = drive(prepare_host_change_on(1, 1), SlotStatus::Reported)
        .0
        .expect("a paired slot must be switchable");
    assert!(change.required, "host 1 differs from the current host 0");
    assert_eq!(change.feature_index, CHANGE_HOST_INDEX);
    assert_eq!(change.device_index, 1);
    assert_eq!(change.host, 1);
}

#[test]
fn a_device_without_hosts_info_is_still_switched() {
    let change = drive(prepare_host_change_on(1, 2), SlotStatus::Unimplemented)
        .0
        .expect("a device that cannot report slot status must still switch");
    assert!(change.required);
}

#[test]
fn a_failed_hosts_info_lookup_does_not_block_the_switch() {
    let change = drive(prepare_host_change_on(1, 2), SlotStatus::LookupErrors)
        .0
        .expect("an errored feature lookup must not abort the switch");
    assert!(change.required);
}

#[test]
fn an_unreadable_slot_status_does_not_block_the_switch() {
    let change = drive(prepare_host_change_on(1, 2), SlotStatus::ReadErrors)
        .0
        .expect("an errored status read must not abort the switch");
    assert!(change.required);
}

#[test]
fn a_switch_to_the_current_host_never_consults_slot_status() {
    let (result, consulted) = drive(prepare_host_change_on(1, 0), SlotStatus::Reported);
    let change = result.expect("staying on the current host is always fine");
    assert!(!change.required);
    assert_eq!(consulted, 0);
}

#[test]
fn an_announced_move_needs_a_paired_slot() {
    let (result, _) = drive(
        prepare_announced_host_change_on(1, 2),
        SlotStatus::Unimplemented,
    );
    assert!(matches!(
        result,
        Err(HostSwitchError::HostSlotUnverified { host: 2 })
    ));
    let (result, _) = drive(prepare_announced_host_change_on(1, 2), SlotStatus::AllPaired);
    assert!(result.is_ok());
}

#[test]
fn a_device_without_change_host_is_refused() {
    let (mut machine, _) = prepare_host_change_on(1, 2);
    assert!(matches!(
        machine.advance(PrepareEvent::DeviceOpened(Timed::Finished(Ok(())))),
        PrepareAction::LocateChangeHost
    ));
    match machine.advance(PrepareEvent::FeatureLocated(Timed::Finished(Ok(None)))) {
        PrepareAction::Finish(Err(HostSwitchError::Hidpp(text))) => {
            assert_eq!(text, "ChangeHost is unsupported")
        }
        _ => panic!("a device without the feature must be refused"),
    }
    assert!(matches!(
        machine.advance(PrepareEvent::FeatureLocated(Timed::Elapsed)),
        PrepareAction::Ignore
    ));
}

#[test]
fn a_device_that_fails_to_open_is_refused() {
    let (mut machine, _) = prepare_host_change_on(1, 2);
    assert!(matches!(
        machine.advance(PrepareEvent::DeviceOpened(Timed::Elapsed)),
        PrepareAction::Finish(Err(HostSwitchError::TimedOut {
            operation: "opening host-change device"
        }))
    ));
}

#[test]
fn unreachable_keyboards_are_told_apart_by_what_they_proved() {
    assert!(matches!(
        unreachable_transition_error(None, 1, HostSwitchError::KeyboardNotFound),
        Err(HostSwitchError::KeyboardNotFound)
    ));
    assert!(matches!(
        unreachable_transition_error(
            Some(ReportedHostSlot::Empty),
            1,
            HostSwitchError::KeyboardNotFound
        ),
        Err(HostSwitchError::HostSlotEmpty { host: 1 })
    ));
    assert!(matches!(
        unreachable_transition_error(
            Some(ReportedHostSlot::Paired),
            1,
            HostSwitchError::KeyboardNotFound
        ),
        Err(HostSwitchError::HostSlotUnverified { host: 1 })
    ));
}

#[test]
fn a_paired_event_sample_does_not_authorize_an_unreachable_destination() {
    let outcome = transition(
        None,
        1,
        KeyboardHostTransition::AnalyticsEvent {
            host_slot: ReportedHostSlot::Paired,
        },
    );
    assert!(matches!(
        outcome.result,
        Err(HostSwitchError::HostSlotUnverified { host: 1 })
    ));
    assert!(
        outcome.target_moves.is_empty(),
        "physical absence must not substitute for destination validation"
    );
}

#[test]
fn an_unknown_departure_announcement_moves_the_target_without_reopening_the_keyboard() {
    let outcome = transition(
        None,
        1,
        KeyboardHostTransition::AlreadyDeparting {
            host_slot: ReportedHostSlot::Unknown,
        },
    );
    assert!(matches!(outcome.result, Ok(true)));
    assert_eq!(outcome.target_moves, [1]);
    assert!(!outcome.keyboard_opened);
}

#[test]
fn an_unreachable_commanded_keyboard_never_moves_a_target() {
    let outcome = transition(None, 1, KeyboardHostTransition::CommandRequired);
    assert!(outcome.result.is_err());
    assert!(
        outcome.target_moves.is_empty(),
        "the target moved without validating the commanded keyboard transition"
    );
}

#[test]
fn an_unverified_analytics_destination_never_moves_a_target() {
    let outcome = transition(
        None,
        1,
        KeyboardHostTransition::AnalyticsEvent {
            host_slot: ReportedHostSlot::Unknown,
        },
    );
    assert!(matches!(
        outcome.result,
        Err(HostSwitchError::HostSlotUnverified { host: 1 })
    ));
    assert!(outcome.target_moves.is_empty());
}

#[test]
fn an_empty_keyboard_slot_never_moves_a_target() {
    let outcome = transition(
        Some(SlotStatus::Reported),
        2,
        KeyboardHostTransition::AnalyticsEvent {
            host_slot: ReportedHostSlot::Unknown,
        },
    );
    assert!(matches!(
        outcome.result,
        Err(HostSwitchError::HostSlotEmpty { host: 2 })
    ));
    assert!(
        outcome.target_moves.is_empty(),
        "the target moved even though the keyboard rejected the host slot"
    );
}

#[test]
fn a_paired_departure_announcement_does_not_use_later_slot_status() {
    let outcome = transition(
        Some(SlotStatus::Reported),
        2,
        KeyboardHostTransition::AlreadyDeparting {
            host_slot: ReportedHostSlot::Paired,
        },
    );
    assert!(matches!(outcome.result, Ok(true)));
    assert_eq!(outcome.target_moves, [2]);
}

#[test]
fn an_unknown_departure_announcement_does_not_command_the_keyboard_again() {
    let outcome = transition(
        Some(SlotStatus::AllPaired),
        2,
        KeyboardHostTransition::AlreadyDeparting {
            host_slot: ReportedHostSlot::Unknown,
        },
    );
    assert!(matches!(outcome.result, Ok(true)));
    assert_eq!(outcome.target_moves, [2]);
    assert!(
        outcome.keyboard_moves.is_empty(),
        "an already-departing keyboard was commanded a second time"
    );
}

#[test]
fn an_empty_departure_announcement_is_not_overridden_by_later_pairing() {
    let outcome = transition(
        Some(SlotStatus::AllPaired),
        2,
        KeyboardHostTransition::AlreadyDeparting {
            host_slot: ReportedHostSlot::Empty,
        },
    );
    assert!(matches!(
        outcome.result,
        Err(HostSwitchError::HostSlotEmpty { host: 2 })
    ));
    assert!(outcome.target_moves.is_empty());
    assert!(outcome.keyboard_moves.is_empty());
}

#[test]
fn an_unknown_departure_announcement_does_not_use_later_slot_status() {
    let outcome = transition(
        Some(SlotStatus::Reported),
        2,
        KeyboardHostTransition::AlreadyDeparting {
            host_slot: ReportedHostSlot::Unknown,
        },
    );
    assert!(matches!(outcome.result, Ok(true)));
    assert_eq!(outcome.target_moves, [2]);
    assert!(
        !outcome.keyboard_opened,
        "an already-departing keyboard was reopened for a stale slot sample"
    );
}

#[test]
fn an_event_transition_requires_a_fresh_paired_slot() {
    let cases = [
        ("missing-hosts-info", SlotStatus::Unimplemented),
        ("hosts-info-lookup-error", SlotStatus::LookupErrors),
        ("slot-status-error", SlotStatus::ReadErrors),
        ("slot-status-timeout", SlotStatus::ReadTimesOut),
        ("unrecognized-slot-status", SlotStatus::Unrecognized),
    ];
    for (case, slots) in cases {
        let outcome = transition(
            Some(slots),
            2,
            KeyboardHostTransition::AnalyticsEvent {
                host_slot: ReportedHostSlot::Paired,
            },
        );
        assert!(
            matches!(
                outcome.result,
                Err(HostSwitchError::HostSlotUnverified { host: 2 })
            ),
            "{case} returned {:?}",
            outcome.result
        );
        assert!(outcome.target_moves.is_empty(), "{case} moved the target");
        assert!(
            outcome.keyboard_moves.is_empty(),
            "{case} moved the keyboard"
        );
    }
}

#[test]
fn a_commanded_transition_keeps_unknown_slot_status_compatible() {
    let outcome = transition(
        Some(SlotStatus::Unimplemented),
        2,
        KeyboardHostTransition::CommandRequired,
    );
    assert!(matches!(outcome.result, Ok(true)));
    assert_eq!(outcome.target_moves, [2]);
    assert_eq!(outcome.keyboard_moves, [2]);
}

#[test]
fn a_departure_announcement_for_an_empty_slot_never_moves_a_target() {
    let outcome = transition(
        None,
        2,
        KeyboardHostTransition::AlreadyDeparting {
            host_slot: ReportedHostSlot::Empty,
        },
    );
    assert!(matches!(
        outcome.result,
        Err(HostSwitchError::HostSlotEmpty { host: 2 })
    ));
    assert!(
        outcome.target_moves.is_empty(),
        "the target moved even though the keyboard reported an empty slot"
    );
}

#[test]
fn a_keyboard_that_stays_reports_no_departure() {
    let outcome = transition(
        Some(SlotStatus::AllPaired),
        0,
        KeyboardHostTransition::CommandRequired,
    );
    assert!(matches!(outcome.result, Ok(false)));
    assert!(outcome.keyboard_moves.is_empty());
}

#[test]
fn a_follower_on_the_same_receiver_goes_through_the_keyboards_channel() {
    let keyboard = DeviceRoute::Bolt {
        receiver_uid: "AABB".into(),
        slot: 1,
    };
    let mouse = DeviceRoute::Bolt {
        receiver_uid: "aabb".into(),
        slot: 2,
    };
    let (mut machine, action) = switch_linked_hosts(
        keyboard,
        vec![mouse],
        1,
        KeyboardHostTransition::CommandRequired,
    );
    assert!(matches!(action, SwitchAction::OpenKeyboard));
    let action = machine.advance(SwitchEvent::KeyboardOpened(Timed::Finished(Ok(Some(())))));
    assert!(matches!(
        action,
        SwitchAction::PrepareKeyboard {
            device_index: 1,
            host: 1,
            requirement: HostSlotRequirement::Advisory
        }
    ));
    let change = PreparedHostChange {
        feature_index: CHANGE_HOST_INDEX,
        device_index: 1,
        host: 1,
        required: true,
    };
    let action = machine.advance(SwitchEvent::Prepared(Ok(change)));
    assert!(matches!(
        action,
        SwitchAction::PrepareTarget {
            index: 0,
            on_keyboard_channel: true,
            device_index: 2,
            host: 1,
            requirement: HostSlotRequirement::Advisory
        }
    ));
    let action = machine.advance(SwitchEvent::Prepared(Err(HostSwitchError::TargetNotFound)));
    assert!(
        matches!(action, SwitchAction::CommandKeyboard { change: last } if last == change),
        "a follower that cannot move must not hold the keyboard back"
    );
    let action = machine.advance(SwitchEvent::Commanded(Timed::Elapsed));
    assert!(matches!(
        action,
        SwitchAction::Finish(Err(HostSwitchError::TimedOut {
            operation: "writing current host"
        }))
    ));
}

#[test]
fn every_follower_gets_its_turn_before_the_keyboard() {
    let (mut machine, mut action) = switch_linked_hosts(
        direct(0xb369),
        vec![direct(1), direct(2), direct(3)],
        1,
        KeyboardHostTransition::CommandRequired,
    );
    let change = |device_index| PreparedHostChange {
        feature_index: CHANGE_HOST_INDEX,
        device_index,
        host: 1,
        required: true,
    };
    let mut trace: Vec<String> = Vec::new();
    loop {
        let event = match action {
            SwitchAction::OpenKeyboard => {
                trace.push("open keyboard".into());
                SwitchEvent::KeyboardOpened(Timed::Finished(Ok(Some(()))))
            }
            SwitchAction::PrepareKeyboard { .. } => {
                trace.push("prepare keyboard".into());
                SwitchEvent::Prepared(Ok(change(0xff)))
            }
            SwitchAction::OpenTarget { index } => {
                trace.push(format!("open {index}"));
                SwitchEvent::TargetOpened(Timed::Finished(if index == 0 {
                    Ok(None)
                } else {
                    Ok(Some(()))
                }))
            }
            SwitchAction::PrepareTarget { index, .. } => {
                trace.push(format!("prepare {index}"));
                SwitchEvent::Prepared(Ok(PreparedHostChange {
                    required: index == 2,
                    ..change(0xff)
                }))
            }
            SwitchAction::CommandTarget { index, .. } => {
                trace.push(format!("command {index}"));
                SwitchEvent::Commanded(Timed::Finished(Err("Busy".into())))
            }
            SwitchAction::CommandKeyboard { .. } => {
                trace.push("command keyboard".into());
                SwitchEvent::Commanded(Timed::Finished(Ok(())))
            }
            SwitchAction::Finish(result) => {
                assert!(matches!(result, Ok(true)));
                break;
            }
            SwitchAction::Ignore => panic!("the transition ignored an answer"),
        };
        action = machine.advance(event);
    }
    assert_eq!(
        trace,
        [
            "open keyboard",
            "prepare keyboard",
            "open 0",
            "open 1",
            "prepare 1",
            "open 2",
            "prepare 2",
            "command 2",
            "command keyboard",
        ]
    );
}

#[test]
fn devices_are_commanded_at_their_own_index_and_to_the_destination() {
    let bolt = |slot| DeviceRoute::Bolt {
        receiver_uid: "AABB".into(),
        slot,
    };
    let (mut machine, mut action) = switch_linked_hosts(
        bolt(1),
        vec![bolt(2), direct(0xb042)],
        1,
        KeyboardHostTransition::CommandRequired,
    );
    let mut commanded = Vec::new();
    loop {
        let event = match action {
            SwitchAction::OpenKeyboard => {
                SwitchEvent::KeyboardOpened(Timed::Finished(Ok(Some(()))))
            }
            SwitchAction::OpenTarget { .. } => {
                SwitchEvent::TargetOpened(Timed::Finished(Ok(Some(()))))
            }
            SwitchAction::PrepareKeyboard {
                device_index,
                host,
                requirement,
            }
            | SwitchAction::PrepareTarget {
                device_index,
                host,
                requirement,
                ..
            } => {
                let begun =
                    prepare_host_change_on_with_requirement(device_index, host, requirement);
                SwitchEvent::Prepared(drive(begun, SlotStatus::Reported).0)
            }
            SwitchAction::CommandTarget { change, .. }
            | SwitchAction::CommandKeyboard { change } => {
                commanded.push((change.device_index, change.host));
                SwitchEvent::Commanded(Timed::Finished(Ok(())))
            }
            SwitchAction::Finish(result) => {
                assert!(matches!(result, Ok(true)));
                break;
            }
            SwitchAction::Ignore => panic!("the transition ignored an answer"),
        };
        action = machine.advance(event);
    }
    assert_eq!(commanded, [(2, 1), (0xff, 1), (1, 1)]);
}

/// Runs a transition of a keyboard and the followers with these products, and
/// tells its result and the products of the followers that were commanded. A
/// follower with an odd product cannot be opened in time, and one whose product
/// is divisible by four fails to be commanded.
fn followed_by(products: &[u16]) -> (bool, Vec<u16>, usize) {
    let targets = products.iter().map(|product| direct(*product)).collect();
    let (mut machine, mut action) = switch_linked_hosts(
        direct(0xb369),
        targets,
        1,
        KeyboardHostTransition::CommandRequired,
    );
    let mut moved = Vec::new();
    let mut keyboard_moves = 0;
    loop {
        let event = match action {
            SwitchAction::OpenKeyboard => {
                SwitchEvent::KeyboardOpened(Timed::Finished(Ok(Some(()))))
            }
            SwitchAction::OpenTarget { index } => {
                SwitchEvent::TargetOpened(if products[index] % 2 == 1 {
                    Timed::Elapsed
                } else {
                    Timed::Finished(Ok(Some(())))
                })
            }
            SwitchAction::PrepareKeyboard {
                device_index,
                host,
                requirement,
            }
            | SwitchAction::PrepareTarget {
                device_index,
                host,
                requirement,
                ..
            } => {
                let begun =
                    prepare_host_change_on_with_requirement(device_index, host, requirement);
                SwitchEvent::Prepared(drive(begun, SlotStatus::Reported).0)
            }
            SwitchAction::CommandTarget { index, .. } => {
                moved.push(products[index]);
                SwitchEvent::Commanded(if products[index] % 4 == 0 {
                    Timed::Finished(Err("Busy".into()))
                } else {
                    Timed::Finished(Ok(()))
                })
            }
            SwitchAction::CommandKeyboard { .. } => {
                keyboard_moves += 1;
                SwitchEvent::Commanded(Timed::Finished(Ok(())))
            }
            SwitchAction::Finish(result) => {
                return (result.expect("the keyboard answers"), moved, keyboard_moves)
            }
            SwitchAction::Ignore => panic!("the transition ignored an answer"),
        };
        action = machine.advance(event);
    }
}

#[test]
fn one_more_follower_affects_no_other_device() {
    assert_eq!(followed_by(&[2, 6]), (true, vec![2, 6], 1));
    assert_eq!(followed_by(&[3, 2, 6]), (true, vec![2, 6], 1));
    assert_eq!(followed_by(&[2, 4, 6]), (true, vec![2, 4, 6], 1));
    assert_eq!(followed_by(&[2, 6, 8]), (true, vec![2, 6, 8], 1));
}
