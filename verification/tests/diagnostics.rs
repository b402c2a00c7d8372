//! Diagnostic probes and the host report.

use openlogi::diagnostics::battery::{
    legacy_text, read_battery_raw, unified_text, BatteryAction, BatteryEvent, LegacyReport,
    UnifiedReport,
};
use openlogi::diagnostics::error::{HidppOperation, WriteError};
use openlogi::diagnostics::firmware::{
    dump_firmware_entities, DeviceEntityType, FirmwareEntity, FirmwareEntityInfo, FirmwareEvent,
    FirmwareFailure,
};
use openlogi::diagnostics::hosts::{
    current_host_slot, dump_hosts, DiagnosticHostBus, DiagnosticHostSlot,
    DiagnosticHostSlotStatus, DiagnosticHosts, HostBusType, HostRecord, HostsAction, HostsEvent,
    HostsFeatureInfo,
};
use openlogi::diagnostics::report::{hosts_report, BusDisplay, HostsArgs, StatusDisplay};
use openlogi::diagnostics::table::{
    dump_features, dump_reprog_controls, CidInfo, DumpAction, DumpEvent, FeatureEntry,
    FeatureType, ReprogControlEntry,
};
use openlogi::host_switch::slots::{HostIndex, HostSlotStatus};

fn feature(id: u16) -> FeatureEntry {
    FeatureEntry {
        id,
        version: 0,
        typ: FeatureType {
            obsolete: false,
            hidden: false,
            engineering: false,
            manufacturing_deactivatable: false,
            compliance_deactivatable: false,
        },
    }
}

fn unsupported_hosts() -> WriteError {
    WriteError::UnsupportedResponse {
        operation: HidppOperation::DumpFeatures,
        feature_hex: 0x1815,
    }
}

#[test]
fn statuses_are_plain_language() {
    assert_eq!(
        StatusDisplay(DiagnosticHostSlotStatus::Paired).text(),
        "paired"
    );
    assert_eq!(
        StatusDisplay(DiagnosticHostSlotStatus::Empty).text(),
        "empty"
    );
}

#[test]
fn bolt_is_named_for_the_user() {
    assert_eq!(BusDisplay(DiagnosticHostBus::Bolt).text(), "Logi Bolt");
}

#[test]
fn every_transport_has_a_name() {
    let names = [
        (DiagnosticHostBus::Undefined, "unknown transport"),
        (DiagnosticHostBus::Equad, "eQuad"),
        (DiagnosticHostBus::Usb, "USB"),
        (DiagnosticHostBus::Bluetooth, "Bluetooth"),
        (DiagnosticHostBus::BluetoothLowEnergy, "Bluetooth LE"),
    ];
    for (bus, name) in names {
        assert_eq!(BusDisplay(bus).text(), name);
    }
}

#[test]
fn host_tables_are_shown_counted_from_one() {
    let hosts = DiagnosticHosts {
        current_host: Some(0),
        slots: vec![
            DiagnosticHostSlot {
                index: 0,
                status: DiagnosticHostSlotStatus::Paired,
                bus: DiagnosticHostBus::Bolt,
            },
            DiagnosticHostSlot {
                index: 1,
                status: DiagnosticHostSlotStatus::Empty,
                bus: DiagnosticHostBus::Undefined,
            },
        ],
    };
    assert_eq!(
        hosts_report("MX Keys", "bolt:aabb:1", &hosts),
        [
            "device: MX Keys (bolt:aabb:1)",
            "current host: 1",
            "  host 1: paired, Logi Bolt [current]",
            "  host 2: empty, unknown transport",
        ]
    );
    let unknown = DiagnosticHosts {
        current_host: None,
        slots: Vec::new(),
    };
    assert_eq!(
        hosts_report("MX Keys", "r", &unknown),
        ["device: MX Keys (r)", "current host: unknown"]
    );
    assert_eq!(
        HostsArgs {
            device: Some("MX".into())
        }
        .device
        .as_deref(),
        Some("MX")
    );
}

#[test]
fn features_are_read_one_beyond_their_count() {
    let (mut dump, action) = dump_features(1);
    assert!(matches!(action, DumpAction::OpenDevice { device_index: 1 }));
    assert!(matches!(
        dump.advance(DumpEvent::Opened { reachable: true }),
        DumpAction::LocateFeature {
            feature_hex: 0x0001
        }
    ));
    assert!(matches!(
        dump.advance(DumpEvent::Located(Ok(Some(7)))),
        DumpAction::ReadCount { feature_index: 7 }
    ));
    assert!(matches!(
        dump.advance(DumpEvent::Counted(Ok(1))),
        DumpAction::ReadRow {
            feature_index: 7,
            row: 0
        }
    ));
    assert!(matches!(
        dump.advance(DumpEvent::Read(Ok(feature(0x0000)))),
        DumpAction::ReadRow {
            feature_index: 7,
            row: 1
        }
    ));
    match dump.advance(DumpEvent::Read(Ok(feature(0x2201)))) {
        DumpAction::Finish(Ok(rows)) => {
            assert_eq!(rows, [feature(0x0000), feature(0x2201)])
        }
        _ => panic!("the table should be complete"),
    }
}

#[test]
fn a_full_feature_table_reaches_the_last_row() {
    let (mut dump, _) = dump_features(1);
    dump.advance(DumpEvent::Opened { reachable: true });
    dump.advance(DumpEvent::Located(Ok(Some(7))));
    let mut action = dump.advance(DumpEvent::Counted(Ok(255)));
    let mut read = 0;
    while let DumpAction::ReadRow { row, .. } = action {
        assert_eq!(usize::from(row), read);
        read += 1;
        action = dump.advance(DumpEvent::Read(Ok(feature(0x0001))));
    }
    assert_eq!(read, 256);
    assert!(matches!(action, DumpAction::Finish(Ok(rows)) if rows.len() == 256));
}

#[test]
fn control_tables_fail_with_what_failed() {
    let (mut dump, _) = dump_reprog_controls(2);
    assert!(matches!(
        dump.advance(DumpEvent::Opened { reachable: false }),
        DumpAction::Finish(Err(WriteError::DeviceUnreachable { index: 2 }))
    ));
    let (mut dump, _) = dump_reprog_controls(2);
    dump.advance(DumpEvent::Opened { reachable: true });
    assert!(matches!(
        dump.advance(DumpEvent::Located(Ok(None))),
        DumpAction::Finish(Err(WriteError::FeatureUnsupported {
            feature_hex: 0x1b04
        }))
    ));
    let (mut dump, _) = dump_reprog_controls(2);
    dump.advance(DumpEvent::Opened { reachable: true });
    dump.advance(DumpEvent::Located(Ok(Some(9))));
    assert!(matches!(
        dump.advance(DumpEvent::Counted(Ok(0))),
        DumpAction::Finish(Ok(rows)) if rows.is_empty()
    ));
    let (mut dump, _) = dump_reprog_controls(2);
    dump.advance(DumpEvent::Opened { reachable: true });
    dump.advance(DumpEvent::Located(Ok(Some(9))));
    dump.advance(DumpEvent::Counted(Ok(3)));
    match dump.advance(DumpEvent::Read(Err(WriteError::Hidpp("Busy".into())))) {
        DumpAction::Finish(Err(error)) => assert_eq!(error, WriteError::Hidpp("Busy".into())),
        _ => panic!("a failed row ends the readout"),
    }
    let info = CidInfo {
        cid: 0x00d3,
        task_id: 0x00b0,
        group: 4,
        flags: 0x31,
    };
    assert_eq!(
        ReprogControlEntry::from(info),
        ReprogControlEntry {
            cid: 0x00d3,
            task_id: 0x00b0,
            flags: 0x31
        }
    );
}

#[test]
fn host_replies_without_meaning_are_refused() {
    assert_eq!(current_host_slot(HostIndex::Current), Ok(None));
    assert_eq!(current_host_slot(HostIndex::Slot(2)), Ok(Some(2)));
    assert_eq!(
        current_host_slot(HostIndex::Unrecognized),
        Err(unsupported_hosts())
    );
    assert_eq!(
        DiagnosticHostSlotStatus::try_from(HostSlotStatus::Unrecognized),
        Err(unsupported_hosts())
    );
    assert_eq!(
        DiagnosticHostBus::try_from(HostBusType::BlePro),
        Ok(DiagnosticHostBus::Bolt)
    );
    assert_eq!(
        DiagnosticHostBus::try_from(HostBusType::Unrecognized),
        Err(unsupported_hosts())
    );
}

#[test]
fn the_host_table_is_read_slot_by_slot() {
    let (mut dump, action) = dump_hosts(3);
    assert!(matches!(
        action,
        HostsAction::Table(DumpAction::OpenDevice { device_index: 3 })
    ));
    dump.advance(HostsEvent::Opened { reachable: true });
    dump.advance(HostsEvent::Located(Ok(Some(5))));
    assert!(matches!(
        dump.advance(HostsEvent::Described(Ok(HostsFeatureInfo {
            host_count: 2,
            current_host: HostIndex::Slot(1)
        }))),
        HostsAction::Table(DumpAction::ReadRow {
            feature_index: 5,
            row: 0
        })
    ));
    dump.advance(HostsEvent::Read(Ok(HostRecord {
        status: HostSlotStatus::Empty,
        bus_type: HostBusType::Undefined,
    })));
    match dump.advance(HostsEvent::Read(Ok(HostRecord {
        status: HostSlotStatus::Paired,
        bus_type: HostBusType::Bt,
    }))) {
        HostsAction::Finish(Ok(hosts)) => assert_eq!(
            hosts,
            DiagnosticHosts {
                current_host: Some(1),
                slots: vec![
                    DiagnosticHostSlot {
                        index: 0,
                        status: DiagnosticHostSlotStatus::Empty,
                        bus: DiagnosticHostBus::Undefined,
                    },
                    DiagnosticHostSlot {
                        index: 1,
                        status: DiagnosticHostSlotStatus::Paired,
                        bus: DiagnosticHostBus::Bluetooth,
                    },
                ],
            }
        ),
        _ => panic!("the table should be complete"),
    }
}

#[test]
fn a_host_table_with_an_unknown_current_slot_is_refused() {
    let (mut dump, _) = dump_hosts(3);
    dump.advance(HostsEvent::Opened { reachable: true });
    dump.advance(HostsEvent::Located(Ok(Some(5))));
    match dump.advance(HostsEvent::Described(Ok(HostsFeatureInfo {
        host_count: 2,
        current_host: HostIndex::Unrecognized,
    }))) {
        HostsAction::Finish(Err(error)) => assert_eq!(error, unsupported_hosts()),
        _ => panic!("the readout should fail"),
    }
}

fn firmware(prefix: &str) -> FirmwareEntityInfo {
    FirmwareEntityInfo {
        kind: DeviceEntityType::MainApplication,
        prefix: prefix.into(),
        number: 25,
        revision: 1,
        build: 28,
        active: true,
        transport_pid: 0xb042,
        extra_version: [0; 5],
    }
}

#[test]
fn a_declined_firmware_entity_keeps_its_row() {
    let (mut dump, _) = dump_firmware_entities(1);
    dump.advance(FirmwareEvent::Opened { reachable: true });
    assert!(matches!(
        dump.advance(FirmwareEvent::Located(Ok(Some(3)))),
        DumpAction::ReadCount { feature_index: 3 }
    ));
    dump.advance(FirmwareEvent::Counted(Ok(2)));
    assert!(matches!(
        dump.advance(FirmwareEvent::Read(Err(
            FirmwareFailure::UnsupportedResponse(WriteError::Hidpp("build".into()))
        ))),
        DumpAction::ReadRow { row: 1, .. }
    ));
    match dump.advance(FirmwareEvent::Read(Ok(firmware("MPM")))) {
        DumpAction::Finish(Ok(entities)) => assert_eq!(
            entities,
            [
                FirmwareEntity::Unreadable {
                    index: 0,
                    error: WriteError::Hidpp("build".into())
                },
                FirmwareEntity::Readable {
                    index: 1,
                    info: firmware("MPM")
                },
            ]
        ),
        _ => panic!("the table should be complete"),
    }
}

#[test]
fn a_channel_failure_ends_the_firmware_readout() {
    let (mut dump, _) = dump_firmware_entities(1);
    dump.advance(FirmwareEvent::Opened { reachable: true });
    dump.advance(FirmwareEvent::Located(Ok(Some(3))));
    dump.advance(FirmwareEvent::Counted(Ok(2)));
    match dump.advance(FirmwareEvent::Read(Err(FirmwareFailure::Channel(
        WriteError::Hidpp("gone".into()),
    )))) {
        DumpAction::Finish(Err(error)) => assert_eq!(error, WriteError::Hidpp("gone".into())),
        _ => panic!("the route is gone"),
    }
    let refused = FirmwareFailure::Feature(WriteError::Hidpp("refused".into()));
    assert!(openlogi::diagnostics::firmware::firmware_row(4, Err(refused)).is_ok());
}

#[test]
fn battery_reports_are_shown_word_for_word() {
    assert_eq!(
        unified_text(&UnifiedReport {
            charging_percentage: 85,
            level: "Good".into(),
            status: "Discharging".into(),
        }),
        "0x1004 UnifiedBattery: percentage=85 level=Good status=Discharging"
    );
    assert_eq!(
        legacy_text(&LegacyReport {
            discharge_level: 0,
            next_level: 100,
            status: "Recharging".into(),
        }),
        "0x1000 BatteryStatus: discharge_level=0 next_level=100 status=Recharging"
    );
}

#[test]
fn the_legacy_battery_is_read_where_the_unified_one_is_missing() {
    let (mut probe, action) = read_battery_raw(1);
    assert!(matches!(
        action,
        BatteryAction::OpenDevice { device_index: 1 }
    ));
    assert!(matches!(
        probe.advance(BatteryEvent::Opened { reachable: true }),
        BatteryAction::LocateFeature {
            feature_hex: 0x1004
        }
    ));
    assert!(matches!(
        probe.advance(BatteryEvent::Located(Err(WriteError::FeatureUnsupported {
            feature_hex: 0x1004
        }))),
        BatteryAction::LocateFeature {
            feature_hex: 0x1000
        }
    ));
    assert!(matches!(
        probe.advance(BatteryEvent::Located(Ok(Some(6)))),
        BatteryAction::ReadLegacy(6)
    ));
    match probe.advance(BatteryEvent::LegacyRead(Ok(LegacyReport {
        discharge_level: 50,
        next_level: 20,
        status: "Discharging".into(),
    }))) {
        BatteryAction::Finish(Ok(line)) => assert_eq!(
            line,
            "0x1000 BatteryStatus: discharge_level=50 next_level=20 status=Discharging"
        ),
        _ => panic!("the report should be shown"),
    }
}

#[test]
fn a_device_without_a_battery_feature_misses_the_preferred_one() {
    let (mut probe, _) = read_battery_raw(1);
    probe.advance(BatteryEvent::Opened { reachable: true });
    probe.advance(BatteryEvent::Located(Ok(None)));
    assert!(matches!(
        probe.advance(BatteryEvent::Located(Ok(None))),
        BatteryAction::Finish(Err(WriteError::FeatureUnsupported {
            feature_hex: 0x1004
        }))
    ));
    let (mut probe, _) = read_battery_raw(1);
    probe.advance(BatteryEvent::Opened { reachable: true });
    probe.advance(BatteryEvent::Located(Ok(Some(2))));
    match probe.advance(BatteryEvent::UnifiedRead(Err("Timeout".into()))) {
        BatteryAction::Finish(Err(error)) => assert_eq!(error, WriteError::Hidpp("Timeout".into())),
        _ => panic!("the failed read should be reported"),
    }
}
