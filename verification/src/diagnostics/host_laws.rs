//! What holds of every host table that is read and shown.

use vstd::prelude::*;
use vstd::string::*;

use crate::diagnostics::error::{HidppOperation, WriteError};
use crate::diagnostics::hosts::{
    bus_of, status_of, DiagnosticHostBus, DiagnosticHostSlot, DiagnosticHostSlotStatus,
    HostBusType, HostRecord, HostsEvent, HostsFeatureInfo, HostsModel, HostsStep,
};
use crate::diagnostics::report::{bus_name, hosts_lines, status_word};
use crate::diagnostics::table::{DumpStage, DumpStep};
use crate::host_switch::slots::{HostIndex, HostSlotStatus};
use crate::text::decimal;

verus! {

/// The transport of a row is the one that the device reported.
pub open spec fn is_transport(bus: DiagnosticHostBus, reported: HostBusType) -> bool {
    &&& bus == DiagnosticHostBus::Undefined <==> reported == HostBusType::Undefined
    &&& bus == DiagnosticHostBus::Equad <==> reported == HostBusType::Equad
    &&& bus == DiagnosticHostBus::Usb <==> reported == HostBusType::Usb
    &&& bus == DiagnosticHostBus::Bluetooth <==> reported == HostBusType::Bt
    &&& bus == DiagnosticHostBus::BluetoothLowEnergy <==> reported == HostBusType::Ble
    &&& bus == DiagnosticHostBus::Bolt <==> reported == HostBusType::BlePro
}

/// The pairing state of a row is the one that the device reported.
pub open spec fn is_state(status: DiagnosticHostSlotStatus, reported: HostSlotStatus) -> bool {
    &&& status == DiagnosticHostSlotStatus::Empty <==> reported == HostSlotStatus::Empty
    &&& status == DiagnosticHostSlotStatus::Paired <==> reported == HostSlotStatus::Paired
}

/// Transports are shown as they were reported and are told apart: one that is
/// recognized is never taken for another, and one that is not is refused.
pub proof fn transports_are_told_apart(left: HostBusType, right: HostBusType)
    ensures
        left != HostBusType::Unrecognized ==> bus_of(left) is Ok && is_transport(
            bus_of(left)->Ok_0,
            left,
        ),
        left == HostBusType::Unrecognized ==> bus_of(left) is Err,
        bus_of(left) is Ok && bus_of(left) == bus_of(right) ==> left == right,
{
}

/// Pairing states are shown as they were reported, and one that is not
/// recognized is refused.
pub proof fn pairing_states_are_told_apart(left: HostSlotStatus, right: HostSlotStatus)
    ensures
        left != HostSlotStatus::Unrecognized ==> status_of(left) is Ok && is_state(
            status_of(left)->Ok_0,
            left,
        ),
        left == HostSlotStatus::Unrecognized ==> status_of(left) is Err,
        status_of(left) is Ok && status_of(left) == status_of(right) ==> left == right,
{
}

/// The failure of a host table that cannot be understood.
pub open spec fn not_understood() -> WriteError {
    WriteError::UnsupportedResponse {
        operation: HidppOperation::DumpFeatures,
        feature_hex: 0x1815,
    }
}

/// A slot whose state and transport are recognized is added as the device
/// reported it, under the number of the row that was asked for; the readout then
/// asks for the next row, or ends with every row where that was the last. A slot
/// with a state or a transport that is not recognized ends the readout in a
/// failure.
pub proof fn a_slot_is_read_as_reported(model: HostsModel, record: HostRecord)
    requires
        model.table.well_formed(),
        model.table.stage is Reading,
    ensures
        ({
            let read = model.table.rows;
            let total = model.table.stage->Reading_total;
            let (after, step) = model.after(HostsEvent::Read(Ok(record)));
            if record.status == HostSlotStatus::Unrecognized || record.bus_type
                == HostBusType::Unrecognized {
                step == HostsStep::Finish(Err(not_understood()))
            } else if read.len() + 1 < total {
                &&& step matches HostsStep::Table(DumpStep::ReadRow { row, .. })
                &&& step->Table_0->ReadRow_row == read.len() + 1
                &&& after.current_host == model.current_host
                &&& after.table.rows.len() == read.len() + 1
                &&& after.table.rows.take(read.len() as int) == read
                &&& after.table.rows.last().index == read.len()
                &&& is_state(after.table.rows.last().status, record.status)
                &&& is_transport(after.table.rows.last().bus, record.bus_type)
            } else {
                &&& (step matches HostsStep::Finish(Ok((current, slots))) && {
                    &&& current == model.current_host
                    &&& slots.len() == read.len() + 1
                    &&& slots.take(read.len() as int) == read
                    &&& slots.last().index == read.len()
                    &&& is_state(slots.last().status, record.status)
                    &&& is_transport(slots.last().bus, record.bus_type)
                })
            }
        }),
{
    let read = model.table.rows;
    let (after, step) = model.after(HostsEvent::Read(Ok(record)));
    if let HostsStep::Finish(Ok((_, slots))) = step {
        assert(slots.take(read.len() as int) =~= read);
    } else {
        assert(after.table.rows.take(read.len() as int) =~= read || step is Finish);
    }
}

/// The description of a table gives the number of slots to read and the slot in
/// use: a numbered one, or none where the device only says that it is the
/// current one. Any other value ends the readout in a failure.
pub proof fn a_described_table_is_read_slot_by_slot(model: HostsModel, info: HostsFeatureInfo)
    requires
        model.table.well_formed(),
        model.table.stage is Counting,
        !model.table.one_beyond_count,
    ensures
        ({
            let (after, step) = model.after(HostsEvent::Described(Ok(info)));
            match info.current_host {
                HostIndex::Unrecognized => step == HostsStep::Finish(Err(not_understood())),
                _ => {
                    &&& after.current_host == match info.current_host {
                        HostIndex::Slot(slot) => Some(slot),
                        _ => None,
                    }
                    &&& if info.host_count > 0 {
                        (step matches HostsStep::Table(DumpStep::ReadRow { row, .. }) && row == 0)
                            && (after.table.stage matches DumpStage::Reading { total, .. } && total
                            == info.host_count)
                    } else {
                        step == HostsStep::Finish(
                            Ok((after.current_host, Seq::<DiagnosticHostSlot>::empty())),
                        )
                    }
                },
            }
        }),
{
    assert(model.table.rows =~= Seq::empty());
}

/// A host table goes by the device: one that does not answer, lacks the feature or
/// fails to be read ends the readout with just that.
pub proof fn a_host_table_needs_its_device(model: HostsModel, error: WriteError, index: u8)
    requires
        model.table.well_formed(),
    ensures
        model.table.stage is Opening ==> {
            &&& model.after(HostsEvent::Opened { reachable: false }).1 == HostsStep::Finish(
                Err(WriteError::DeviceUnreachable { index: model.table.device_index }),
            )
            &&& model.after(HostsEvent::Opened { reachable: true }).1 == HostsStep::Table(
                DumpStep::LocateFeature { feature_hex: model.table.feature_hex },
            )
        },
        model.table.stage is Locating ==> {
            &&& model.after(HostsEvent::Located(Ok(None))).1 == HostsStep::Finish(
                Err(WriteError::FeatureUnsupported { feature_hex: model.table.feature_hex }),
            )
            &&& model.after(HostsEvent::Located(Err(error))).1 == HostsStep::Finish(Err(error))
            &&& model.after(HostsEvent::Located(Ok(Some(index)))).1 == HostsStep::Table(
                DumpStep::ReadCount { feature_index: index },
            )
        },
        model.table.stage is Counting ==> model.after(HostsEvent::Described(Err(error))).1
            == HostsStep::Finish(Err(error)),
        model.table.stage is Reading ==> model.after(HostsEvent::Read(Err(error))).1
            == HostsStep::Finish(Err(error)),
{
}

/// A table is shown as a line for the device, one for the host in use, and one
/// per slot in their order. Hosts are counted from one, and a slot is marked
/// exactly where it is the one in use.
pub proof fn a_table_is_shown_line_by_line(
    name: Seq<char>,
    route: Seq<char>,
    current: Option<u8>,
    slots: Seq<DiagnosticHostSlot>,
    at: int,
)
    requires
        0 <= at < slots.len(),
    ensures
        ({
            let lines = hosts_lines(name, route, current, slots);
            let slot = slots[at];
            &&& lines.len() == slots.len() + 2
            &&& lines[0] == "device: "@ + name + " ("@ + route + ")"@
            &&& lines[1] == match current {
                Some(host) => "current host: "@ + decimal((host + 1) as nat),
                None => "current host: unknown"@,
            }
            &&& lines[at + 2] == "  host "@ + decimal((slot.index + 1) as nat) + ": "@ + (
            if slot.status == DiagnosticHostSlotStatus::Paired {
                "paired"@
            } else {
                "empty"@
            }) + ", "@ + bus_name(slot.bus) + (if current == Some(slot.index) {
                " [current]"@
            } else {
                ""@
            })
        }),
{
}

/// Each transport and each pairing state has its own words.
pub proof fn transports_are_named_for_the_user(bus: DiagnosticHostBus)
    ensures
        bus == DiagnosticHostBus::Undefined ==> bus_name(bus) == "unknown transport"@,
        bus == DiagnosticHostBus::Equad ==> bus_name(bus) == "eQuad"@,
        bus == DiagnosticHostBus::Usb ==> bus_name(bus) == "USB"@,
        bus == DiagnosticHostBus::Bluetooth ==> bus_name(bus) == "Bluetooth"@,
        bus == DiagnosticHostBus::BluetoothLowEnergy ==> bus_name(bus) == "Bluetooth LE"@,
        bus == DiagnosticHostBus::Bolt ==> bus_name(bus) == "Logi Bolt"@,
        status_word(DiagnosticHostSlotStatus::Empty) == "empty"@,
        status_word(DiagnosticHostSlotStatus::Paired) == "paired"@,
{
}

} // verus!
