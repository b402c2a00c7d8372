//! Session management.

use openlogi::host_switch::error::HostSwitchError;
use openlogi::host_switch::request::{
    HostSwitchCaptureMode, HostSwitchRequest, KeyboardHostTransition,
};
use openlogi::host_switch::slots::ReportedHostSlot;
use openlogi::manage::{manage, HostSwitchManager, ManagerAction, ManagerEvent};
use openlogi::manager::{CompletionAction, HostSwitchManagerState};
use openlogi::route::DeviceRoute;
use openlogi::watcher::{
    accept_completion, capture_mode_for, departure_observed, keyboard_departed,
    remember_announcement_keyboard, session_completion, transition_follow_up, DepartureEvent,
    HostSwitchLink, ReceiverRequestState, RunningSession, SessionCompletion, TransitionFollowUp,
    RETRY_DELAY,
};

fn link(key: &str, product_id: u16) -> HostSwitchLink {
    HostSwitchLink {
        keyboard_key: key.into(),
        keyboard: DeviceRoute::Direct {
            vendor_id: 0x046d,
            product_id,
        },
        targets: Vec::new(),
    }
}

fn test_link() -> HostSwitchLink {
    link("keyboard-a", 0xb37c)
}

fn departing() -> HostSwitchRequest {
    HostSwitchRequest {
        host: 2,
        keyboard_transition: KeyboardHostTransition::AlreadyDeparting {
            host_slot: ReportedHostSlot::Paired,
        },
    }
}

fn requested() -> ReceiverRequestState {
    ReceiverRequestState { outstanding: 1 }
}

#[test]
fn suspended_device_io_disables_retry_deadlines() {
    let retry_at = 5_000 + RETRY_DELAY;
    let mut state = HostSwitchManagerState::new();
    state.restart_after.push((test_link(), retry_at));

    assert_eq!(
        state.deadline(ReceiverRequestState::default(), true),
        Some(retry_at),
    );
    assert_eq!(
        state.deadline(ReceiverRequestState::default(), false),
        None,
        "host-switch retries must stay dormant until visible resume",
    );
}

#[test]
fn requests_disable_retry_deadlines() {
    let mut state = HostSwitchManagerState::new();
    state.restart_after.push((test_link(), 70));
    state.restart_after.push((link("keyboard-b", 0xb37d), 40));
    assert_eq!(
        state.deadline(ReceiverRequestState::default(), true),
        Some(40)
    );
    assert_eq!(state.deadline(requested(), true), None);
}

#[test]
fn observed_announcement_enables_lightweight_reconnect_capture() {
    let mut keyboards = Vec::new();

    assert_eq!(
        capture_mode_for(&keyboards, "keyboard-a"),
        HostSwitchCaptureMode::Full
    );
    remember_announcement_keyboard(&mut keyboards, "keyboard-a".into());
    assert_eq!(
        capture_mode_for(&keyboards, "keyboard-a"),
        HostSwitchCaptureMode::ChangeHostAnnouncement
    );
    assert_eq!(
        capture_mode_for(&keyboards, "replacement-keyboard"),
        HostSwitchCaptureMode::Full,
        "a device reusing the same route must not inherit another keyboard's capture mode"
    );
}

#[test]
fn remembering_twice_records_once() {
    let mut keyboards = Vec::new();
    remember_announcement_keyboard(&mut keyboards, "keyboard-a".into());
    remember_announcement_keyboard(&mut keyboards, "keyboard-a".into());
    assert_eq!(keyboards, ["keyboard-a"]);
}

#[test]
fn config_link_removal_does_not_confirm_a_departure() {
    let link = test_link();
    let keyboard = link.keyboard.clone();
    let mut links = vec![link];
    let mut inventory = vec![keyboard.clone()];

    assert!(!keyboard_departed(&inventory, &keyboard));
    links.clear();
    assert!(links.is_empty());
    assert!(
        !keyboard_departed(&inventory, &keyboard),
        "configuration state must not stand in for physical inventory"
    );
    inventory.clear();
    assert!(keyboard_departed(&inventory, &keyboard));
}

#[test]
fn a_departure_is_only_confirmed_by_the_inventory() {
    let keyboard = test_link().keyboard;
    let there = [keyboard.clone()];
    assert_eq!(
        departure_observed(DepartureEvent::Started, &there, &keyboard),
        None
    );
    assert_eq!(
        departure_observed(DepartureEvent::InventoryChanged, &there, &keyboard),
        None
    );
    assert_eq!(
        departure_observed(DepartureEvent::InventoryChanged, &[], &keyboard),
        Some(true)
    );
    assert_eq!(
        departure_observed(DepartureEvent::TimedOut, &there, &keyboard),
        Some(false)
    );
    assert_eq!(
        departure_observed(DepartureEvent::InventoryClosed, &there, &keyboard),
        Some(false)
    );
}

#[test]
fn stale_completion_cannot_remove_or_command_the_current_session() {
    let mut sessions = vec![RunningSession {
        link: test_link(),
        generation: 2,
    }];
    let stale = SessionCompletion {
        generation: 1,
        request: Some((test_link(), departing())),
    };

    assert!(accept_completion(&mut sessions, stale).is_none());
    assert_eq!(sessions.len(), 1, "the replacement session must stay armed");
}

#[test]
fn a_current_completion_takes_its_session_out() {
    let mut sessions = vec![
        RunningSession {
            link: test_link(),
            generation: 2,
        },
        RunningSession {
            link: link("keyboard-b", 0xb37d),
            generation: 3,
        },
    ];
    let completion = session_completion(link("keyboard-b", 0xb37d), 3, Ok(Some(departing())));
    let accepted = accept_completion(&mut sessions, completion).expect("a current session");
    assert_eq!(accepted.completed.generation, 3);
    assert_eq!(accepted.request, Some((link("keyboard-b", 0xb37d), departing())));
    assert_eq!(sessions.len(), 1);
    assert_eq!(sessions[0].generation, 2);
}

#[test]
fn a_failed_session_requests_nothing() {
    let completion = session_completion(test_link(), 7, Err(HostSwitchError::KeyboardNotFound));
    assert_eq!(completion.generation, 7);
    assert_eq!(completion.request, None);
    assert_eq!(session_completion(test_link(), 7, Ok(None)).request, None);
}

#[test]
fn transitions_are_followed_up_by_their_outcome() {
    assert_eq!(
        transition_follow_up(&Ok(true)),
        TransitionFollowUp::AwaitDeparture
    );
    assert_eq!(
        transition_follow_up(&Ok(false)),
        TransitionFollowUp::Nothing
    );
    assert_eq!(
        transition_follow_up(&Err(HostSwitchError::HostSlotUnverified { host: 1 })),
        TransitionFollowUp::WarnUnverified
    );
    assert_eq!(
        transition_follow_up(&Err(HostSwitchError::HostSlotEmpty { host: 1 })),
        TransitionFollowUp::NoteFailure
    );
}

#[test]
fn a_reconciliation_fits_sessions_to_links() {
    let a = test_link();
    let b = link("keyboard-b", 0xb37d);
    let mut state = HostSwitchManagerState::new();
    state
        .announcement_keyboards
        .push("keyboard-b".to_string());
    let none = ReceiverRequestState::default();

    let todo = state.reconcile(none, &[a.clone(), b.clone()], true, 100);
    assert!(todo.stopped.is_empty());
    assert_eq!(todo.starting, [a.clone(), b.clone()]);
    let begun = state.start_sessions(&todo.starting, 2, 100);
    assert_eq!(begun.len(), 2);
    assert_eq!(begun[0].generation, 1);
    assert_eq!(begun[0].capture_mode, HostSwitchCaptureMode::Full);
    assert_eq!(begun[1].generation, 2);
    assert_eq!(
        begun[1].capture_mode,
        HostSwitchCaptureMode::ChangeHostAnnouncement
    );

    let todo = state.reconcile(none, &[a.clone(), b.clone()], true, 200);
    assert!(todo.stopped.is_empty());
    assert!(todo.starting.is_empty(), "running links are not started again");

    let todo = state.reconcile(none, &[b.clone()], true, 300);
    assert_eq!(todo.stopped.len(), 1);
    assert_eq!(todo.stopped[0].link, a);
    assert_eq!(state.sessions.len(), 1);

    let todo = state.reconcile(requested(), &[b.clone()], true, 400);
    assert_eq!(todo.stopped.len(), 1);
    assert!(todo.starting.is_empty());
    assert!(state.sessions.is_empty());
}

#[test]
fn a_denied_lease_delays_its_link_and_stops_there() {
    let a = test_link();
    let b = link("keyboard-b", 0xb37d);
    let mut state = HostSwitchManagerState::new();
    let none = ReceiverRequestState::default();
    let todo = state.reconcile(none, &[a.clone(), b.clone()], true, 100);
    let begun = state.start_sessions(&todo.starting, 0, 100);
    assert!(begun.is_empty());
    assert_eq!(state.restart_after, [(a.clone(), 100 + RETRY_DELAY)]);

    let todo = state.reconcile(none, &[a.clone(), b.clone()], true, 101);
    assert_eq!(todo.starting, [b.clone()]);

    let todo = state.reconcile(none, &[a.clone(), b.clone()], true, 100 + RETRY_DELAY);
    assert_eq!(todo.starting, [a, b]);
}

#[test]
fn suspended_io_leaves_sessions_alone() {
    let mut state = HostSwitchManagerState::new();
    state.sessions.push(RunningSession {
        link: test_link(),
        generation: 1,
    });
    let todo = state.reconcile(ReceiverRequestState::default(), &[], false, 100);
    assert!(todo.stopped.is_empty());
    assert!(todo.starting.is_empty());
    assert_eq!(state.sessions.len(), 1);
}

#[test]
fn delays_of_removed_links_are_forgotten() {
    let mut state = HostSwitchManagerState::new();
    state.restart_after.push((test_link(), 9_000));
    state.reconcile(ReceiverRequestState::default(), &[], true, 100);
    assert!(state.restart_after.is_empty());
}

#[test]
fn an_accepted_completion_is_carried_out_or_delayed() {
    let mut state = HostSwitchManagerState::new();
    for generation in [1, 2] {
        state.sessions.push(RunningSession {
            link: test_link(),
            generation,
        });
    }
    let completion = session_completion(test_link(), 1, Ok(Some(departing())));
    let accepted = accept_completion(&mut state.sessions, completion).expect("a current session");
    match state.complete(accepted, true, 100) {
        CompletionAction::RunTransition { link, request } => {
            assert_eq!(link, test_link());
            assert_eq!(request, departing());
        }
        CompletionAction::Reconcile => panic!("the request must be carried out"),
    }
    assert_eq!(state.announcement_keyboards, ["keyboard-a"]);
    assert!(state.restart_after.is_empty());

    let completion = session_completion(test_link(), 2, Ok(None));
    let accepted = accept_completion(&mut state.sessions, completion).expect("a current session");
    assert!(matches!(
        state.complete(accepted, true, 100),
        CompletionAction::Reconcile
    ));
    assert_eq!(state.restart_after, [(test_link(), 100 + RETRY_DELAY)]);
}

#[test]
fn stopping_all_hands_every_session_over() {
    let mut state = HostSwitchManagerState::new();
    for generation in [4, 5] {
        state.sessions.push(RunningSession {
            link: test_link(),
            generation,
        });
    }
    let stopped = state.stop_all();
    assert_eq!(stopped.len(), 2);
    assert_eq!(stopped[0].generation, 4);
    assert!(state.sessions.is_empty());
}

#[test]
fn generations_wrap_around() {
    let mut state = HostSwitchManagerState::new();
    state.next_generation = u64::MAX;
    let begun = state.start_sessions(&[test_link()], 1, 0);
    assert_eq!(begun[0].generation, 0);
    assert_eq!(state.next_generation, 0);
}

fn look(manager: &mut HostSwitchManager, published: &[HostSwitchLink], now: u64) -> ManagerAction {
    manager.advance(ManagerEvent::Looked {
        changed: false,
        requests: ReceiverRequestState::default(),
        published: published.to_vec(),
        device_io_allowed: true,
        now,
    })
}

fn suspended_look(manager: &mut HostSwitchManager, now: u64) -> ManagerAction {
    manager.advance(ManagerEvent::Looked {
        changed: false,
        requests: ReceiverRequestState::default(),
        published: Vec::new(),
        device_io_allowed: false,
        now,
    })
}

/// A loop that waits with one running session, of the first generation.
fn waiting_loop() -> HostSwitchManager {
    let (mut manager, action) = manage();
    assert!(matches!(action, ManagerAction::Look));
    match look(&mut manager, &[test_link()], 10) {
        ManagerAction::StopAndLease { stopped, wanted } => {
            assert!(stopped.is_empty());
            assert_eq!(wanted, 1);
        }
        _ => panic!("the loop begins with a reconciliation"),
    }
    match manager.advance(ManagerEvent::Leased { granted: 1 }) {
        ManagerAction::Start(begun) => {
            assert_eq!(begun.len(), 1);
            assert_eq!(begun[0].generation, 1);
        }
        _ => panic!("a leased link is started"),
    }
    assert!(matches!(
        look(&mut manager, &[test_link()], 11),
        ManagerAction::Wait { deadline: None }
    ));
    manager
}

fn complete(
    manager: &mut HostSwitchManager,
    generation: u64,
    request: Option<HostSwitchRequest>,
) -> ManagerAction {
    manager.advance(ManagerEvent::Completed {
        completion: session_completion(test_link(), generation, Ok(request)),
        device_io_allowed: true,
        now: 20,
    })
}

#[test]
fn the_loop_carries_out_what_a_live_session_captured() {
    let mut manager = waiting_loop();
    assert!(matches!(
        complete(&mut manager, 1, Some(departing())),
        ManagerAction::JoinAndAwaitIo { completed } if completed.generation == 1
    ));
    match manager.advance(ManagerEvent::IoAwaited { resumed: true }) {
        ManagerAction::StopAndTransition {
            stopped,
            link,
            request,
        } => {
            assert!(stopped.is_empty());
            assert_eq!(link, test_link());
            assert_eq!(request, departing());
        }
        _ => panic!("the request is carried out"),
    }
    assert!(matches!(
        manager.advance(ManagerEvent::TransitionEnded),
        ManagerAction::Look
    ));
    assert!(matches!(
        look(&mut manager, &[test_link()], 30),
        ManagerAction::StopAndLease { wanted: 1, .. }
    ));
    match manager.advance(ManagerEvent::Leased { granted: 1 }) {
        ManagerAction::Start(begun) => {
            assert_eq!(begun[0].generation, 2);
            assert_eq!(
                begun[0].capture_mode,
                HostSwitchCaptureMode::ChangeHostAnnouncement
            );
        }
        _ => panic!("the link is taken up again"),
    }
}

#[test]
fn the_loop_discards_stale_completions() {
    let mut manager = waiting_loop();
    assert!(matches!(
        complete(&mut manager, 7, Some(departing())),
        ManagerAction::Look
    ));
    assert_eq!(manager.state().sessions.len(), 1);
    assert!(manager.state().announcement_keyboards.is_empty());
}

#[test]
fn the_loop_delays_links_whose_sessions_end() {
    let mut manager = waiting_loop();
    assert!(matches!(
        complete(&mut manager, 1, None),
        ManagerAction::Join { .. }
    ));
    assert!(matches!(
        look(&mut manager, &[test_link()], 21),
        ManagerAction::StopAndLease { wanted: 0, .. }
    ));
    assert!(matches!(
        manager.advance(ManagerEvent::Leased { granted: 0 }),
        ManagerAction::Start(begun) if begun.is_empty()
    ));
    let due = 20 + RETRY_DELAY;
    assert!(matches!(
        look(&mut manager, &[test_link()], 22),
        ManagerAction::Wait { deadline: Some(deadline) } if deadline == due
    ));
    assert!(matches!(
        manager.advance(ManagerEvent::DeadlineReached),
        ManagerAction::Look
    ));
    assert!(matches!(
        look(&mut manager, &[test_link()], due),
        ManagerAction::StopAndLease { wanted: 1, .. }
    ));
}

#[test]
fn a_suspended_loop_waits_without_a_deadline() {
    let mut manager = waiting_loop();
    assert!(matches!(
        manager.advance(ManagerEvent::LinksChanged { closed: false }),
        ManagerAction::Look
    ));
    assert!(matches!(
        suspended_look(&mut manager, 40),
        ManagerAction::Wait { deadline: None }
    ));
    assert_eq!(manager.state().sessions.len(), 1);
    assert!(matches!(
        manager.advance(ManagerEvent::DeviceIoChanged {
            allowed: Some(true)
        }),
        ManagerAction::Look
    ));
    assert!(matches!(
        look(&mut manager, &[], 50),
        ManagerAction::StopAndLease { stopped, wanted: 0 } if stopped.len() == 1
    ));
}

#[test]
fn a_change_seen_in_passing_is_not_missed() {
    let mut manager = waiting_loop();
    assert!(matches!(
        complete(&mut manager, 7, None),
        ManagerAction::Look
    ));
    assert!(matches!(
        manager.advance(ManagerEvent::Looked {
            changed: true,
            requests: ReceiverRequestState::default(),
            published: Vec::new(),
            device_io_allowed: true,
            now: 21,
        }),
        ManagerAction::StopAndLease { stopped, wanted: 0 } if stopped.len() == 1
    ));
}

#[test]
fn the_loop_ends_with_its_sources() {
    for event in [
        ManagerEvent::LinksChanged { closed: true },
        ManagerEvent::RequestsChanged { closed: true },
        ManagerEvent::DeviceIoChanged { allowed: None },
    ] {
        let mut manager = waiting_loop();
        assert!(matches!(manager.advance(event), ManagerAction::Finish));
        assert!(matches!(
            manager.advance(ManagerEvent::DeadlineReached),
            ManagerAction::Ignore
        ));
    }
    let mut manager = waiting_loop();
    complete(&mut manager, 1, Some(departing()));
    assert!(matches!(
        manager.advance(ManagerEvent::IoAwaited { resumed: false }),
        ManagerAction::Finish
    ));
}
