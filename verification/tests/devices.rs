//! The device list.

use openlogi::devices::codename::{
    blank, join_words, prettify_codename, split_words, title_word,
};
use openlogi::devices::fold::{adopt_transient_record, fold_by_inventory_key};
use openlogi::devices::keys::{direct_key_prefix, receiver_uid_of};
use openlogi::devices::list::{
    build_device_list, present_receivers, sort_device_list, DeviceInventory,
};
use openlogi::devices::model::{
    bare_model_info, model_info_from_legacy_model_key, Capabilities, DeviceKind, DeviceModelInfo,
    DeviceTransports, LightCapabilities, ResolvedAsset,
};
use openlogi::devices::offline::{
    append_offline_known, entry_is_unreachable, offline_record, DeviceIdentity, KnownDevice,
    ModelLookup,
};
use openlogi::devices::record::{
    demo_keyboard, effective_kind, pick_initial_device, record_wire_pid, DeviceRecord,
};
use openlogi::devices::sighting::{
    camera_model_info, camera_record, offered_identity, paired_record, standalone_record, Camera,
    OfferedIdentity, PairedModel, PairedSighting, RawHidAddress, SightingKeys, StandaloneDevice,
};
use openlogi::route::DeviceRoute;

fn keys(persistent: Option<&str>, order: &str) -> SightingKeys {
    SightingKeys {
        persistent_key: persistent.map(String::from),
        runtime_key: "runtime".into(),
        canonical_key: None,
        route_key: "direct:046d:b042".into(),
        stable_order: order.into(),
    }
}

fn asset(name: &str, kind: Option<DeviceKind>) -> ResolvedAsset {
    ResolvedAsset {
        display_name: name.into(),
        kind,
        image: "mouse.png".into(),
    }
}

fn paired(key: Option<&str>, order: &str) -> PairedSighting {
    PairedSighting {
        slot: 2,
        codename: Some("G513 RGB MECHANICAL GAMING KEYBOARD".into()),
        wpid: Some(0x40a9),
        kind: DeviceKind::Keyboard,
        online: true,
        battery: None,
        model: None,
        capabilities: None,
        route: None,
        keys: keys(key, order),
        slot_name: "Slot 2".into(),
    }
}

fn known(key: &str) -> KnownDevice {
    KnownDevice {
        key: key.into(),
        identity: DeviceIdentity {
            display_name: "Saved name".into(),
            codename: None,
            kind: DeviceKind::Mouse,
            capabilities: Capabilities {
                pointer: true,
                ..Capabilities::default()
            },
            light_capabilities: None,
            driver_id: None,
            registry_model_id: None,
            model_info: None,
        },
        links: Vec::new(),
        transient: false,
        physical: true,
        model: None,
        registry_asset: None,
        stable_order: "z".into(),
    }
}

fn record(key: &str, online: bool) -> DeviceRecord {
    let mut record = offline_record(&known(key));
    record.online = online;
    record
}

fn camera(name: &str, id: &str, serial: Option<&str>) -> Camera {
    Camera {
        product_id: 0x0893,
        unique_id: id.into(),
        name: name.into(),
        serial_number: serial.map(String::from),
        config_key: "camera:0893".into(),
        asset: None,
        stable_order: "c".into(),
    }
}

fn light() -> StandaloneDevice {
    StandaloneDevice {
        address: RawHidAddress {
            vendor_id: 0x046d,
            product_id: 0xc900,
            usage_page: 0xff43,
            usage_id: 0x0202,
            identity: "node-1".into(),
        },
        serial_number: Some("123".into()),
        unit_id: [1, 2, 3, 4],
        driver_id: "litra".into(),
        registry_model_id: Some("litra-glow".into()),
        display_name: "Litra".into(),
        kind: DeviceKind::Light,
        capabilities: None,
        light_capabilities: Some(LightCapabilities {
            brightness: true,
            temperature: true,
        }),
        online: true,
        keys: keys(Some("raw:1"), "b"),
        registry_asset: Some(asset("Litra Glow", None)),
    }
}

#[test]
fn codenames_are_title_cased() {
    assert_eq!(
        prettify_codename("G513 RGB MECHANICAL GAMING KEYBOARD"),
        "G513 RGB Mechanical Gaming Keyboard"
    );
    assert_eq!(prettify_codename("MX Master 3S"), "MX Master 3S");
    assert_eq!(prettify_codename("  MX   KEYS  "), "MX Keys");
    assert_eq!(prettify_codename(""), "");
    assert_eq!(prettify_codename("PRO\u{2003}WIRELESS"), "PRO Wireless");
    assert_eq!(prettify_codename("ÉLITE"), "Élite");
    assert_eq!(
        prettify_codename("ÉÀ"),
        "Éà",
        "two letters of four bytes are no short acronym"
    );
}

#[test]
fn ascii_words_are_cased_letter_by_letter() {
    for upper in 'A'..='Z' {
        let lower = upper.to_ascii_lowercase();
        let word = format!("{upper}{upper}{upper}{upper}");
        let shown = format!("{upper}{lower}{lower}{lower}");
        assert_eq!(prettify_codename(&word), shown);
        let mixed = format!("{word}{lower}");
        assert_eq!(prettify_codename(&mixed), mixed);
    }
    for c in (0u8..0x80).map(char::from) {
        if !c.is_ascii_lowercase() && !c.is_ascii_whitespace() && c != '\u{b}' {
            let word = format!("_AB{c}");
            let tail = if c.is_ascii_digit() {
                format!("AB{c}")
            } else {
                format!("ab{}", c.to_ascii_lowercase())
            };
            assert_eq!(prettify_codename(&word), format!("_{tail}"));
        }
    }
    assert_eq!(prettify_codename("ßSTRASSE"), "ßSTRASSE");
    assert_eq!(title_word("KEYS", "K", "eys"), "Keys");
    assert_eq!(title_word("MX", "M", "x"), "MX");
    assert_eq!(
        join_words(&["a".to_string(), "b".to_string()]),
        "a b"
    );
}

#[test]
fn white_space_is_what_unicode_says() {
    for code in 0..=0x10ffffu32 {
        let Some(c) = char::from_u32(code) else {
            continue;
        };
        let expected = matches!(
            code,
            0x9..=0xd | 0x20 | 0x85 | 0xa0 | 0x1680 | 0x2000..=0x200a | 0x2028 | 0x2029 | 0x202f
                | 0x205f | 0x3000
        );
        assert_eq!(blank(c.encode_utf8(&mut [0; 4])), expected, "{code:#x}");
    }
}

#[test]
fn words_are_split_at_white_space() {
    assert_eq!(split_words(" a\tbc  d "), ["a", "bc", "d"]);
    assert!(split_words(" \n").is_empty());
    assert!(blank(" \t"));
    assert!(!blank(" x "));
}

#[test]
fn receiver_keys_name_their_receiver() {
    assert_eq!(
        receiver_uid_of("receiver:AABB:slot:1").as_deref(),
        Some("aabb")
    );
    assert_eq!(receiver_uid_of("receiver:AABB").as_deref(), Some("aabb"));
    assert_eq!(receiver_uid_of("receiver:").as_deref(), Some(""));
    assert_eq!(receiver_uid_of("unit:AABB"), None);
}

#[test]
fn direct_keys_share_a_prefix_by_product() {
    assert_eq!(
        direct_key_prefix("direct:046d:b042:unit:01"),
        Some("direct:046d:b042")
    );
    assert_eq!(direct_key_prefix("direct:046d:b042:"), None);
    assert_eq!(direct_key_prefix("direct:046d:b042"), None);
    assert_eq!(direct_key_prefix("direct::b042:x"), None);
    assert_eq!(direct_key_prefix("direct:046d::x"), None);
    assert_eq!(direct_key_prefix("unit:046d:b042:x"), None);
}

#[test]
fn legacy_model_keys_spell_out_their_model() {
    let info = model_info_from_legacy_model_key("2b034").expect("a legacy model key");
    assert_eq!(info.model_ids, [0xb034, 0, 0]);
    assert_eq!(info.extended_model_id, 2);
    assert_eq!(info, bare_model_info(0xb034, 2));
    assert_eq!(
        model_info_from_legacy_model_key("00FFb034")
            .expect("leading zeros")
            .extended_model_id,
        0xff
    );
    assert_eq!(model_info_from_legacy_model_key("b034"), None);
    assert_eq!(model_info_from_legacy_model_key("100b034"), None);
    assert_eq!(model_info_from_legacy_model_key("unit:01020304"), None);
}

#[test]
fn wire_pids_come_from_the_model_or_its_key() {
    let mut record = record("unit:01", false);
    assert_eq!(record_wire_pid(&record), None);
    record.model_key = "wpid40A9".into();
    assert_eq!(record_wire_pid(&record).as_deref(), Some("40a9"));
    record.model_info = Some(bare_model_info(0, 0));
    assert_eq!(record_wire_pid(&record).as_deref(), Some("40a9"));
    record.model_info = Some(bare_model_info(0x0c42, 0));
    assert_eq!(record_wire_pid(&record).as_deref(), Some("0c42"));
}

#[test]
fn the_registry_overrules_the_reported_kind() {
    assert_eq!(
        effective_kind(DeviceKind::Keyboard, Some(DeviceKind::Mouse)),
        DeviceKind::Mouse
    );
    assert_eq!(
        effective_kind(DeviceKind::Keyboard, None),
        DeviceKind::Keyboard
    );
}

#[test]
fn an_unmodelled_device_goes_by_its_product_id_or_slot() {
    let mut sighting = paired(None, "a");
    let shown = paired_record(&sighting);
    assert_eq!(shown.model_key, "wpid40a9");
    assert_eq!(shown.display_name, "G513 RGB Mechanical Gaming Keyboard");
    assert_eq!(shown.config_key, "runtime");
    assert!(!shown.persistent);
    sighting.wpid = None;
    sighting.codename = None;
    let shown = paired_record(&sighting);
    assert_eq!(shown.model_key, "slot2");
    assert_eq!(shown.display_name, "Slot 2");
}

#[test]
fn a_modelled_device_takes_name_and_kind_from_its_artwork() {
    let mut sighting = paired(Some("unit:01020304"), "a");
    sighting.model = Some(PairedModel {
        info: DeviceModelInfo {
            entity_count: 1,
            serial_number: Some("S1".into()),
            unit_id: [1, 2, 3, 4],
            transports: DeviceTransports::default(),
            model_ids: [0xb042, 0, 0],
            extended_model_id: 0,
        },
        lookup: ModelLookup {
            config_key: "0b042".into(),
            asset: Some(asset("MX Master 4", Some(DeviceKind::Mouse))),
        },
    });
    let shown = paired_record(&sighting);
    assert_eq!(shown.config_key, "unit:01020304");
    assert!(shown.persistent);
    assert_eq!(shown.model_key, "0b042");
    assert_eq!(shown.model_name, "MX Master 4");
    assert_eq!(shown.kind, DeviceKind::Mouse);
    assert_eq!(shown.serial_number.as_deref(), Some("S1"));
    assert_eq!(shown.unit_id, [1, 2, 3, 4]);
}

#[test]
fn standalone_devices_keep_their_raw_model_key() {
    let shown = standalone_record(&light());
    assert_eq!(shown.model_key, "raw:c900");
    assert_eq!(shown.display_name, "Litra Glow");
    assert_eq!(shown.slot, 0xff);
    assert_eq!(
        shown.route,
        Some(DeviceRoute::RawHid {
            vendor_id: 0x046d,
            product_id: 0xc900,
            usage_page: 0xff43,
            usage_id: 0x0202,
            identity: "node-1".into(),
        })
    );
    let mut unnamed = light();
    unnamed.registry_asset = Some(asset("  ", None));
    assert_eq!(standalone_record(&unnamed).display_name, "Litra");
    let mut unlisted = light();
    unlisted.registry_model_id = None;
    assert_eq!(standalone_record(&unlisted).asset, None);
}

#[test]
fn cameras_go_by_capture_id_where_they_have_no_serial() {
    let with_serial = camera_record(&camera("StreamCam", "0x14", Some("S1")));
    assert_eq!(with_serial.model_key, "0893");
    assert_eq!(with_serial.inventory_key(), "cam-live:0x14");
    assert_eq!(with_serial.record_key(), "camera:0893");
    for serial in [None, Some("  ")] {
        let without = camera_record(&camera("StreamCam", "0x14", serial));
        assert_eq!(without.record_key(), "cam-live:0x14");
    }
    let unnamed = camera_record(&camera("StreamCam", "", None));
    assert_eq!(unnamed.record_key(), "camera:0893");
    assert_eq!(
        camera_model_info(&camera("StreamCam", "", None)).model_ids,
        [0x0893, 0, 0]
    );
}

#[test]
fn placeholders_prefer_registry_artwork_and_keep_their_panels() {
    let mut entry = known("2b034");
    entry.model = Some(ModelLookup {
        config_key: "2b034".into(),
        asset: Some(asset("MX Master 3S", None)),
    });
    let shown = offline_record(&entry);
    assert_eq!(shown.display_name, "MX Master 3S");
    assert_eq!(shown.model_key, "2b034");
    assert_eq!(
        shown.model_info.as_ref().map(|info| info.model_ids[0]),
        Some(0xb034)
    );
    assert!(shown.capabilities.expect("persisted").pointer);
    assert_eq!(shown.route, None);
    assert!(!shown.online);
    entry.identity.registry_model_id = Some("litra".into());
    entry.registry_asset = Some(asset("Litra Glow", None));
    assert_eq!(offline_record(&entry).display_name, "Litra Glow");
    let plain = offline_record(&known("unit:01020304"));
    assert_eq!(plain.model_key, "unit:01020304");
    assert_eq!(plain.display_name, "Saved name");
}

#[test]
fn entries_are_unreachable_only_behind_absent_receivers() {
    let present = ["aabb".to_string()];
    let links = |keys: &[&str]| keys.iter().map(|key| key.to_string()).collect::<Vec<_>>();
    assert!(!entry_is_unreachable("receiver:AABB:slot:1", &[], &present));
    assert!(entry_is_unreachable("receiver:CCDD:slot:1", &[], &present));
    assert!(!entry_is_unreachable("unit:01", &[], &present));
    assert!(entry_is_unreachable(
        "unit:01",
        &links(&["receiver:ccdd:slot:1"]),
        &present
    ));
    assert!(!entry_is_unreachable(
        "unit:01",
        &links(&["receiver:ccdd:slot:1", "receiver:aabb:slot:2"]),
        &present
    ));
    assert!(!entry_is_unreachable(
        "unit:01",
        &links(&["receiver:ccdd:slot:1", "direct:046d:b042:x"]),
        &present
    ));
}

#[test]
fn known_devices_are_added_once_and_legacy_duplicates_are_not() {
    let mut live = record("unit:01", true);
    live.model_key = "2b034".into();
    let mut list = vec![live];
    let mut transient = known("direct:046d:b042:00000000");
    transient.transient = true;
    let mut legacy = known("2b034");
    legacy.physical = false;
    let absent = known("receiver:ccdd:slot:1");
    append_offline_known(
        &mut list,
        vec![
            known("unit:02"),
            known("unit:01"),
            transient,
            legacy,
            absent,
            known("unit:00"),
        ],
        &[],
    );
    let shown: Vec<&str> = list.iter().map(|record| record.config_key.as_str()).collect();
    assert_eq!(shown, ["unit:01", "unit:00", "unit:02"]);
}

#[test]
fn legacy_entries_are_suppressed_by_product_id() {
    let mut live = record("unit:01", true);
    live.model_info = Some(bare_model_info(0xb034, 2));
    let mut list = vec![live];
    let mut legacy = known("1b034");
    legacy.physical = false;
    append_offline_known(&mut list, vec![legacy], &[]);
    assert_eq!(list.len(), 1);
}

#[test]
fn known_devices_with_a_model_come_first() {
    let mut list = Vec::new();
    let mut described = known("unit:09");
    described.identity.model_info = Some(bare_model_info(0xb034, 0));
    append_offline_known(&mut list, vec![known("unit:01"), described], &[]);
    let shown: Vec<&str> = list.iter().map(|record| record.config_key.as_str()).collect();
    assert_eq!(shown, ["unit:09", "unit:01"]);
}

#[test]
fn an_online_record_survives_folding() {
    let mut first = record("unit:01", true);
    first.slot = 1;
    let mut second = record("unit:01", false);
    second.slot = 2;
    let mut other = record("unit:00", false);
    other.slot = 3;
    let mut later = record("unit:00", false);
    later.slot = 4;
    let folded = fold_by_inventory_key(vec![first, other, second, later]);
    let shown: Vec<(&str, u8)> = folded
        .iter()
        .map(|(key, record)| (key.as_str(), record.slot))
        .collect();
    assert_eq!(shown, [("unit:00", 4), ("unit:01", 1)]);
    let mut asleep = record("unit:01", false);
    asleep.slot = 1;
    let mut awake = record("unit:01", true);
    awake.slot = 2;
    let folded = fold_by_inventory_key(vec![asleep, awake]);
    assert_eq!(folded[0].1.slot, 2);
}

#[test]
fn a_transient_sighting_is_folded_into_its_card() {
    let mut card = record("unit:01", false);
    card.kind = DeviceKind::Unknown;
    card.codename = Some("KNOWN".into());
    let mut live = record("transient", true);
    live.persistent = false;
    live.kind = DeviceKind::Mouse;
    live.codename = Some("LIVE".into());
    live.route_key = "direct:046d:b042".into();
    live.capabilities = None;
    live.slot = 7;
    let adopted = adopt_transient_record(&card, live, "m".into());
    assert_eq!(adopted.config_key, "unit:01");
    assert!(adopted.persistent);
    assert_eq!(adopted.codename.as_deref(), Some("KNOWN"));
    assert_eq!(adopted.kind, DeviceKind::Mouse);
    assert_eq!(adopted.route_key, "direct:046d:b042");
    assert!(adopted.capabilities.expect("the known ones").pointer);
    assert_eq!(adopted.slot, 7);
    assert!(adopted.online);
    assert_eq!(adopted.stable_order, "m");
}

#[test]
fn sorting_is_by_stable_identity_and_then_by_model() {
    let entry = |order: &str, model: &str, name: &str, slot: u8| {
        let mut record = record("unit:01", true);
        record.stable_order = order.into();
        record.model_key = model.into();
        record.model_name = name.into();
        record.slot = slot;
        record
    };
    let mut list = vec![
        entry("b", "x", "n", 1),
        entry("a", "y", "n", 2),
        entry("a", "x", "o", 3),
        entry("a", "x", "n", 4),
        entry("a", "x", "n", 5),
        entry("", "z", "z", 6),
    ];
    sort_device_list(&mut list);
    let slots: Vec<u8> = list.iter().map(|record| record.slot).collect();
    assert_eq!(slots, [6, 4, 5, 3, 2, 1]);
    list.reverse();
    sort_device_list(&mut list);
    assert_eq!(list[0].slot, 6);
    assert_eq!(list[5].slot, 1);
}

#[test]
fn the_initial_device_is_the_saved_one() {
    let mut unsaved = record("unit:02", true);
    unsaved.persistent = false;
    let list = vec![record("unit:01", true), unsaved, record("unit:03", true)];
    assert_eq!(pick_initial_device(&list, Some("unit:03")), 2);
    assert_eq!(pick_initial_device(&list, Some("unit:02")), 0);
    assert_eq!(pick_initial_device(&list, Some("unit:04")), 0);
    assert_eq!(pick_initial_device(&list, None), 0);
    assert_eq!(pick_initial_device(&[], Some("unit:03")), 0);
}

#[test]
fn the_list_unites_live_known_and_standalone_devices() {
    let inventory = DeviceInventory {
        receiver_uid: Some("AABB".into()),
        paired: vec![paired(Some("unit:01"), "d"), paired(Some("unit:02"), "a")],
    };
    let names = vec![
        ("unit:02".to_string(), "Desk keyboard".to_string()),
        ("unit:02".to_string(), "Never shown".to_string()),
        ("cam-live:0x14".to_string(), "Front camera".to_string()),
    ];
    let list = build_device_list(
        std::slice::from_ref(&inventory),
        &[light()],
        Some("e".into()),
        vec![known("unit:01"), known("receiver:aabb:slot:3")],
        &[camera("StreamCam", "0x14", None)],
        &names,
    );
    let shown: Vec<(&str, &str)> = list
        .iter()
        .map(|record| (record.config_key.as_str(), record.display_name.as_str()))
        .collect();
    assert_eq!(
        shown,
        [
            ("unit:02", "Desk keyboard"),
            ("raw:1", "Litra Glow"),
            ("camera:0893", "Front camera"),
            ("unit:01", "G513 RGB Mechanical Gaming Keyboard"),
            ("demo-g513", "Logitech G513"),
            ("receiver:aabb:slot:3", "Saved name"),
        ]
    );
    assert_eq!(present_receivers(&[inventory]), ["aabb"]);
    let demo = demo_keyboard("e".into());
    assert!(demo.capabilities.expect("lighting").lighting);
    assert_eq!(demo.device_key().0, "demo-g513");
    assert_eq!(demo.persistent_config_key(), Some("demo-g513"));
}

#[test]
fn transient_records_take_no_alias() {
    let inventory = DeviceInventory {
        receiver_uid: None,
        paired: vec![paired(None, "a")],
    };
    let names = vec![("runtime".to_string(), "Alias".to_string())];
    let list = build_device_list(&[inventory], &[], None, Vec::new(), &[], &names);
    assert_eq!(list.len(), 1);
    assert_eq!(list[0].display_name, "G513 RGB Mechanical Gaming Keyboard");
}

#[test]
fn only_a_device_that_answers_offers_its_identity() {
    let serial = Some("2212LZ0A".to_string());
    assert_eq!(
        offered_identity(&serial, [1, 2, 3, 4], true),
        Some(OfferedIdentity {
            serial_number: Some("2212LZ0A".into()),
            unit_id: [1, 2, 3, 4],
        })
    );
    assert_eq!(
        offered_identity(&None, [0; 4], true),
        Some(OfferedIdentity {
            serial_number: None,
            unit_id: [0; 4],
        })
    );
    assert_eq!(offered_identity(&serial, [1, 2, 3, 4], false), None);
}

#[test]
fn folding_again_changes_nothing() {
    let awake = paired_record(&paired(Some("unit:aa"), "a"));
    let mut asleep = paired_record(&paired(Some("unit:aa"), "b"));
    asleep.online = false;
    let other = paired_record(&paired(Some("unit:00"), "c"));
    let once = fold_by_inventory_key(vec![awake, asleep, other]);
    assert_eq!(once.len(), 2);
    let kept = once.iter().map(|(_, record)| record.clone()).collect();
    assert_eq!(fold_by_inventory_key(kept), once);
}

#[test]
fn tidying_keeps_the_words() {
    let raw = " G513  RGB MECHANICAL GAMING\tKEYBOARD ";
    let lower = |text: &str| -> Vec<String> {
        split_words(text)
            .iter()
            .map(|word| word.to_ascii_lowercase())
            .collect()
    };
    assert_eq!(
        lower(raw),
        ["g513", "rgb", "mechanical", "gaming", "keyboard"]
    );
    assert_eq!(lower(&prettify_codename(raw)), lower(raw));
}
