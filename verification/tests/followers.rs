//! Easy-Switch followers.

use openlogi::devices::list::{build_device_list, DeviceInventory};
use openlogi::devices::model::{Capabilities, DeviceKind, DeviceModelInfo, DeviceTransports};
use openlogi::devices::offline::ModelLookup;
use openlogi::devices::record::{pick_initial_device, DeviceKey, DeviceRecord};
use openlogi::devices::sighting::{PairedModel, PairedSighting, SightingKeys};
use openlogi::followers::{
    is_compatible_target, set_target_enabled, AppState, HostSwitchTargetUpdate,
};
use openlogi::panel::{easy_switch_panel, toggle_event, StateEvent};

fn record(kind: DeviceKind, host_switching: bool) -> DeviceRecord {
    DeviceRecord {
        config_key: "unit:test".into(),
        canonical_key: Some("unit:test".into()),
        persistent: true,
        route_key: "direct:046d:test".into(),
        stable_order: "test".into(),
        model_key: "test".into(),
        model_name: "Test device".into(),
        display_name: "Test device".into(),
        asset: None,
        model_info: None,
        codename: None,
        serial_number: None,
        unit_id: [1, 2, 3, 4],
        driver_id: None,
        registry_model_id: None,
        route: None,
        capture_id: None,
        kind,
        capabilities: Some(Capabilities {
            host_switching,
            pointer: matches!(kind, DeviceKind::Mouse | DeviceKind::Trackball),
            ..Capabilities::default()
        }),
        light_capabilities: None,
        slot: 1,
        online: true,
        battery: None,
    }
}

#[test]
fn only_change_host_devices_are_compatible() {
    assert!(is_compatible_target(&record(DeviceKind::Mouse, true)));
    assert!(is_compatible_target(&record(DeviceKind::Trackball, true)));
    assert!(!is_compatible_target(&record(DeviceKind::Mouse, false)));
    assert!(is_compatible_target(&record(DeviceKind::Keyboard, true)));
}

fn paired_device(
    slot: u8,
    name: &str,
    kind: DeviceKind,
    unit_id: [u8; 4],
    host_switching: bool,
) -> PairedSighting {
    let [a, b, c, d] = unit_id;
    PairedSighting {
        slot,
        codename: Some(name.into()),
        wpid: None,
        kind,
        online: true,
        battery: None,
        model: Some(PairedModel {
            info: DeviceModelInfo {
                entity_count: 1,
                serial_number: None,
                unit_id,
                transports: DeviceTransports::default(),
                model_ids: [0xb000 + u16::from(slot), 0, 0],
                extended_model_id: 0,
            },
            lookup: ModelLookup {
                config_key: format!("0b00{slot}"),
                asset: None,
            },
        }),
        capabilities: Some(Capabilities {
            buttons: kind == DeviceKind::Keyboard,
            host_switching,
            host_switch_controls: kind == DeviceKind::Keyboard && host_switching,
            pointer: matches!(kind, DeviceKind::Mouse | DeviceKind::Trackball),
            ..Capabilities::default()
        }),
        route: None,
        keys: SightingKeys {
            persistent_key: Some(format!("unit:{a:02x}{b:02x}{c:02x}{d:02x}")),
            runtime_key: format!("slot:{slot}"),
            canonical_key: None,
            route_key: format!("receiver:test-receiver:slot:{slot}"),
            stable_order: format!("{slot}"),
        },
        slot_name: format!("Slot {slot}"),
    }
}

fn host_switch_inventory() -> DeviceInventory {
    DeviceInventory {
        receiver_uid: Some("test-receiver".into()),
        paired: vec![
            paired_device(1, "MX Keys", DeviceKind::Keyboard, [1, 2, 3, 4], true),
            paired_device(2, "MX Master 4", DeviceKind::Mouse, [5, 6, 7, 8], true),
            paired_device(
                3,
                "Unsupported mouse",
                DeviceKind::Mouse,
                [9, 10, 11, 12],
                false,
            ),
        ],
    }
}

fn host_switch_state() -> AppState {
    let devices = build_device_list(
        &[host_switch_inventory()],
        &[],
        None,
        Vec::new(),
        &[],
        &[],
    );
    let current = pick_initial_device(&devices, Some("unit:01020304"));
    AppState {
        devices,
        current,
        host_switch_targets: vec![("unit:01020304".into(), Vec::new())],
    }
}

#[test]
fn selecting_a_compatible_follower_persists_identity_and_rejects_self_links() {
    let mut state = host_switch_state();

    let targets = state.host_switch_target_devices();
    assert_eq!(targets.len(), 1);
    assert_eq!(targets[0].config_key, "unit:05060708");
    assert_eq!(targets[0].display_name, "MX Master 4");

    let edit = state
        .host_switch_target_edit("unit:05060708", true)
        .expect("a selection to persist");
    assert_eq!(edit.keyboard_key, "unit:01020304");
    assert_eq!(edit.targets, ["unit:05060708"]);
    assert!(matches!(
        state.set_host_switch_target_enabled("unit:05060708", true, true),
        HostSwitchTargetUpdate::Persisted(_)
    ));
    assert_eq!(
        state.host_switch_targets,
        [("unit:01020304".to_string(), vec!["unit:05060708".to_string()])]
    );

    assert!(state
        .host_switch_target_edit("unit:01020304", true)
        .is_none());
    assert_eq!(
        state.set_host_switch_target_enabled("unit:01020304", true, true),
        HostSwitchTargetUpdate::Unchanged
    );
    assert_eq!(state.host_switch_targets[0].1, ["unit:05060708"]);

    assert!(state
        .host_switch_target_edit("unit:090a0b0c", true)
        .is_none());
    assert_eq!(
        state.set_host_switch_target_enabled("unit:090a0b0c", true, true),
        HostSwitchTargetUpdate::Unchanged
    );
}

#[test]
fn persistence_failure_reports_rollback_and_restores_the_selection() {
    let mut state = host_switch_state();

    assert!(matches!(
        state.set_host_switch_target_enabled("unit:05060708", true, false),
        HostSwitchTargetUpdate::RolledBack
    ));
    assert!(
        state.host_switch_targets[0].1.is_empty(),
        "the failed selection must be restored to the last persisted value"
    );
}

#[test]
fn target_selection_is_idempotent() {
    let mut targets = vec!["mouse-a".to_string()];
    assert!(!set_target_enabled(&mut targets, "mouse-a", true));
    assert!(set_target_enabled(&mut targets, "mouse-b", true));
    assert!(!set_target_enabled(&mut targets, "mouse-b", true));
    assert_eq!(targets, ["mouse-a", "mouse-b"]);

    assert!(set_target_enabled(&mut targets, "mouse-a", false));
    assert!(!set_target_enabled(&mut targets, "mouse-a", false));
    assert_eq!(targets, ["mouse-b"]);
}

#[test]
fn disabling_restores_the_selection() {
    let mut state = host_switch_state();
    state.set_host_switch_target_enabled("unit:05060708", true, true);
    assert!(state.host_switch_target_devices()[0].selected);
    assert_eq!(
        state.set_host_switch_target_enabled("unit:05060708", false, true),
        HostSwitchTargetUpdate::Persisted(DeviceKey("unit:01020304".into()))
    );
    assert!(state.host_switch_targets[0].1.is_empty());
    assert!(!state.host_switch_target_devices()[0].selected);
}

#[test]
fn only_keyboards_with_host_keys_have_followers() {
    let mut state = host_switch_state();
    assert_eq!(
        state.current_host_switch_keyboard_key(),
        Some("unit:01020304")
    );
    state.current = 1;
    assert_eq!(state.current_host_switch_keyboard_key(), None);
    assert!(state.host_switch_target_devices().is_empty());
    assert_eq!(
        state.set_host_switch_target_enabled("unit:05060708", true, true),
        HostSwitchTargetUpdate::Unchanged
    );
    state.current = 9;
    assert!(state.current_record().is_none());
    assert_eq!(state.current_host_switch_keyboard_key(), None);
}

#[test]
fn the_panel_shows_a_toggle_per_follower() {
    let state = host_switch_state();
    let panel = easy_switch_panel(Some(&state));
    assert_eq!(panel.rows.len(), 1);
    assert_eq!(panel.rows[0].toggle_id, "easy-switch-target-unit:05060708");
    assert_eq!(panel.rows[0].target_key, "unit:05060708");
    assert_eq!(panel.rows[0].kind, DeviceKind::Mouse);
    assert!(panel.rows[0].online);
    assert!(!panel.rows[0].selected);
    assert!(!panel.shows_empty_note);
    let empty = easy_switch_panel(None);
    assert!(empty.rows.is_empty());
    assert!(empty.shows_empty_note);
}

#[test]
fn toggles_announce_what_they_did() {
    assert_eq!(toggle_event(HostSwitchTargetUpdate::Unchanged), None);
    assert_eq!(
        toggle_event(HostSwitchTargetUpdate::Persisted(DeviceKey("unit:01".into()))),
        Some(StateEvent::DeviceConfigChanged(DeviceKey("unit:01".into())))
    );
    assert_eq!(
        toggle_event(HostSwitchTargetUpdate::RolledBack),
        Some(StateEvent::SettingsChanged)
    );
}
