//! The Easy-Switch host table of a device.

use vstd::prelude::*;

use crate::diagnostics::error::{HidppOperation, WriteError};
use crate::diagnostics::table::{DumpAction, DumpEvent, DumpStage, DumpStep, TableDump, TableModel};
use crate::host_switch::slots::{HostIndex, HostSlotStatus};

verus! {

/// HID++ id of `HostsInfo`.
pub const HOSTS_INFO: u16 = 0x1815;

/// Transport field of a `HostsInfo` reply.
#[derive(Debug, Clone, Copy, PartialEq, Eq, Structural)]
pub enum HostBusType {
    /// No transport was recorded.
    Undefined,
    /// Logitech eQuad.
    Equad,
    /// USB.
    Usb,
    /// Bluetooth Classic.
    Bt,
    /// Bluetooth Low Energy.
    Ble,
    /// Bluetooth Low Energy Pro.
    BlePro,
    /// A value that stands for no transport.
    Unrecognized,
}

/// Pairing state of one Easy-Switch host slot.
#[derive(Debug, Clone, Copy, PartialEq, Eq, Structural)]
pub enum DiagnosticHostSlotStatus {
    /// No host is paired in this slot.
    Empty,
    /// A host is paired in this slot.
    Paired,
}

/// Wireless transport recorded for one Easy-Switch host slot.
#[derive(Debug, Clone, Copy, PartialEq, Eq, Structural)]
pub enum DiagnosticHostBus {
    /// The device did not identify the transport.
    Undefined,
    /// Logitech eQuad / Unifying transport.
    Equad,
    /// Wired USB transport.
    Usb,
    /// Bluetooth Classic transport.
    Bluetooth,
    /// Bluetooth Low Energy transport.
    BluetoothLowEnergy,
    /// Bluetooth Low Energy Pro / Logi Bolt transport.
    Bolt,
}

/// Read-only snapshot of one Easy-Switch host slot.
#[derive(Debug, Clone, Copy, PartialEq, Eq, Structural)]
pub struct DiagnosticHostSlot {
    /// Zero-based slot index used by HID++ `ChangeHost`.
    pub index: u8,
    /// Whether a host is paired in the slot.
    pub status: DiagnosticHostSlotStatus,
    /// Transport associated with the pairing.
    pub bus: DiagnosticHostBus,
}

/// Read-only snapshot of a device's Easy-Switch host table.
#[derive(Debug, PartialEq, Eq)]
pub struct DiagnosticHosts {
    /// Zero-based active host slot, when the device returned a concrete slot.
    pub current_host: Option<u8>,
    /// Every slot reported by the device.
    pub slots: Vec<DiagnosticHostSlot>,
}

/// The failure that stands for a `HostsInfo` reply without meaning.
pub open spec fn meaningless_reply() -> WriteError {
    WriteError::UnsupportedResponse {
        operation: HidppOperation::DumpFeatures,
        feature_hex: HOSTS_INFO,
    }
}

fn unsupported_hosts_response() -> (error: WriteError)
    ensures
        error == meaningless_reply(),
{
    WriteError::UnsupportedResponse {
        operation: HidppOperation::DumpFeatures,
        feature_hex: HOSTS_INFO,
    }
}

/// The pairing state that a reply reports, if it reports one.
pub open spec fn status_of(status: HostSlotStatus) -> Result<DiagnosticHostSlotStatus, WriteError> {
    match status {
        HostSlotStatus::Empty => Ok(DiagnosticHostSlotStatus::Empty),
        HostSlotStatus::Paired => Ok(DiagnosticHostSlotStatus::Paired),
        HostSlotStatus::Unrecognized => Err(meaningless_reply()),
    }
}

impl DiagnosticHostSlotStatus {
    /// Reads the pairing state out of a reply.
    pub fn try_from(status: HostSlotStatus) -> (read: Result<Self, WriteError>)
        ensures
            read == status_of(status),
            status == HostSlotStatus::Empty <==> read == Ok::<Self, WriteError>(
                DiagnosticHostSlotStatus::Empty,
            ),
            status == HostSlotStatus::Paired <==> read == Ok::<Self, WriteError>(
                DiagnosticHostSlotStatus::Paired,
            ),
            status == HostSlotStatus::Unrecognized <==> read is Err,
    {
        match status {
            HostSlotStatus::Empty => Ok(DiagnosticHostSlotStatus::Empty),
            HostSlotStatus::Paired => Ok(DiagnosticHostSlotStatus::Paired),
            HostSlotStatus::Unrecognized => Err(unsupported_hosts_response()),
        }
    }
}

/// The transport that a reply reports, if it reports one.
pub open spec fn bus_of(bus: HostBusType) -> Result<DiagnosticHostBus, WriteError> {
    match bus {
        HostBusType::Undefined => Ok(DiagnosticHostBus::Undefined),
        HostBusType::Equad => Ok(DiagnosticHostBus::Equad),
        HostBusType::Usb => Ok(DiagnosticHostBus::Usb),
        HostBusType::Bt => Ok(DiagnosticHostBus::Bluetooth),
        HostBusType::Ble => Ok(DiagnosticHostBus::BluetoothLowEnergy),
        HostBusType::BlePro => Ok(DiagnosticHostBus::Bolt),
        HostBusType::Unrecognized => Err(meaningless_reply()),
    }
}

impl DiagnosticHostBus {
    /// Reads the transport out of a reply.
    pub fn try_from(bus: HostBusType) -> (read: Result<Self, WriteError>)
        ensures
            read == bus_of(bus),
            bus == HostBusType::Undefined <==> read == Ok::<Self, WriteError>(
                DiagnosticHostBus::Undefined,
            ),
            bus == HostBusType::Equad <==> read == Ok::<Self, WriteError>(DiagnosticHostBus::Equad),
            bus == HostBusType::Usb <==> read == Ok::<Self, WriteError>(DiagnosticHostBus::Usb),
            bus == HostBusType::Bt <==> read == Ok::<Self, WriteError>(DiagnosticHostBus::Bluetooth),
            bus == HostBusType::Ble <==> read == Ok::<Self, WriteError>(
                DiagnosticHostBus::BluetoothLowEnergy,
            ),
            bus == HostBusType::BlePro <==> read == Ok::<Self, WriteError>(DiagnosticHostBus::Bolt),
            bus == HostBusType::Unrecognized <==> read is Err,
    {
        match bus {
            HostBusType::Undefined => Ok(DiagnosticHostBus::Undefined),
            HostBusType::Equad => Ok(DiagnosticHostBus::Equad),
            HostBusType::Usb => Ok(DiagnosticHostBus::Usb),
            HostBusType::Bt => Ok(DiagnosticHostBus::Bluetooth),
            HostBusType::Ble => Ok(DiagnosticHostBus::BluetoothLowEnergy),
            HostBusType::BlePro => Ok(DiagnosticHostBus::Bolt),
            HostBusType::Unrecognized => Err(unsupported_hosts_response()),
        }
    }
}

/// The active slot that a reply names: none where it only says "current".
pub open spec fn current_of(host: HostIndex) -> Result<Option<u8>, WriteError> {
    match host {
        HostIndex::Current => Ok(None),
        HostIndex::Slot(slot) => Ok(Some(slot)),
        HostIndex::Unrecognized => Err(meaningless_reply()),
    }
}

/// Reads the active slot out of a reply.
pub fn current_host_slot(host: HostIndex) -> (read: Result<Option<u8>, WriteError>)
    ensures
        read == current_of(host),
{
    match host {
        HostIndex::Current => Ok(None),
        HostIndex::Slot(slot) => Ok(Some(slot)),
        HostIndex::Unrecognized => Err(unsupported_hosts_response()),
    }
}

/// What `HostsInfo` says about the table as a whole.
#[derive(Debug, Clone, Copy, PartialEq, Eq, Structural)]
pub struct HostsFeatureInfo {
    /// Number of host slots.
    pub host_count: u8,
    /// The slot in use.
    pub current_host: HostIndex,
}

/// What `HostsInfo` says about one slot.
#[derive(Debug, Clone, Copy, PartialEq, Eq, Structural)]
pub struct HostRecord {
    /// Whether the slot is paired.
    pub status: HostSlotStatus,
    /// Transport of the pairing.
    pub bus_type: HostBusType,
}

/// The row that a slot's record makes.
pub open spec fn slot_row(index: u8, record: HostRecord) -> Result<DiagnosticHostSlot, WriteError> {
    match (status_of(record.status), bus_of(record.bus_type)) {
        (Ok(status), Ok(bus)) => Ok(DiagnosticHostSlot { index, status, bus }),
        _ => Err(meaningless_reply()),
    }
}

fn host_row(index: u8, record: HostRecord) -> (row: Result<DiagnosticHostSlot, WriteError>)
    ensures
        row == slot_row(index, record),
{
    match (
        DiagnosticHostSlotStatus::try_from(record.status),
        DiagnosticHostBus::try_from(record.bus_type),
    ) {
        (Ok(status), Ok(bus)) => Ok(DiagnosticHostSlot { index, status, bus }),
        (Err(error), _) => Err(error),
        (_, Err(error)) => Err(error),
    }
}

/// A readout of the host table under way.
#[derive(Debug)]
pub struct HostsDump {
    /// Zero-based active slot, once it is known.
    pub current_host: Option<u8>,
    /// The slots read so far.
    pub table: TableDump<DiagnosticHostSlot>,
}

/// Mathematical content of a [`HostsDump`].
pub struct HostsModel {
    /// See [`HostsDump::current_host`].
    pub current_host: Option<u8>,
    /// See [`HostsDump::table`].
    pub table: TableModel<DiagnosticHostSlot>,
}

impl View for HostsDump {
    type V = HostsModel;

    open spec fn view(&self) -> HostsModel {
        HostsModel { current_host: self.current_host, table: self.table@ }
    }
}

/// What came of the operation asked for last.
#[derive(Debug)]
pub enum HostsEvent {
    /// The device was opened, or does not answer.
    Opened {
        /// Whether the device answers.
        reachable: bool,
    },
    /// The feature lookup ended.
    Located(Result<Option<u8>, WriteError>),
    /// The table as a whole was described, or not.
    Described(Result<HostsFeatureInfo, WriteError>),
    /// A slot was read, or not.
    Read(Result<HostRecord, WriteError>),
}

/// The operation to perform next.
#[derive(Debug)]
pub enum HostsAction {
    /// A read of the table.
    Table(DumpAction<DiagnosticHostSlot>),
    /// The readout ended.
    Finish(Result<DiagnosticHosts, WriteError>),
}

/// Mathematical content of a [`HostsAction`].
pub enum HostsStep {
    /// See [`HostsAction::Table`].
    Table(DumpStep<DiagnosticHostSlot>),
    /// See [`HostsAction::Finish`]: the active slot and every slot.
    Finish(Result<(Option<u8>, Seq<DiagnosticHostSlot>), WriteError>),
}

impl View for HostsAction {
    type V = HostsStep;

    open spec fn view(&self) -> HostsStep {
        match *self {
            HostsAction::Table(action) => HostsStep::Table(action@),
            HostsAction::Finish(Ok(hosts)) => HostsStep::Finish(
                Ok((hosts.current_host, hosts.slots@)),
            ),
            HostsAction::Finish(Err(error)) => HostsStep::Finish(Err(error)),
        }
    }
}

impl HostsModel {
    /// The active slot after `event`.
    pub open spec fn current_after(self, event: HostsEvent) -> Option<u8> {
        match (self.table.stage, event) {
            (DumpStage::Counting { .. }, HostsEvent::Described(Ok(info))) => match current_of(
                info.current_host,
            ) {
                Ok(current) => current,
                Err(_) => self.current_host,
            },
            _ => self.current_host,
        }
    }

    /// What `event` means to the table.
    pub open spec fn table_event(self, event: HostsEvent) -> DumpEvent<DiagnosticHostSlot> {
        match event {
            HostsEvent::Opened { reachable } => DumpEvent::Opened { reachable },
            HostsEvent::Located(located) => DumpEvent::Located(located),
            HostsEvent::Described(Ok(info)) => DumpEvent::Counted(
                match current_of(info.current_host) {
                    Ok(_) => Ok(info.host_count),
                    Err(error) => Err(error),
                },
            ),
            HostsEvent::Described(Err(error)) => DumpEvent::Counted(Err(error)),
            HostsEvent::Read(Ok(record)) => DumpEvent::Read(
                slot_row(self.table.rows.len() as u8, record),
            ),
            HostsEvent::Read(Err(error)) => DumpEvent::Read(Err(error)),
        }
    }

    /// Where the readout goes on `event`, and what it asks for.
    pub open spec fn after(self, event: HostsEvent) -> (HostsModel, HostsStep) {
        let (table, step) = self.table.after(self.table_event(event));
        let current_host = self.current_after(event);
        (
            HostsModel { current_host, table },
            match step {
                DumpStep::Finish(Ok(slots)) => HostsStep::Finish(Ok((current_host, slots))),
                DumpStep::Finish(Err(error)) => HostsStep::Finish(Err(error)),
                other => HostsStep::Table(other),
            },
        )
    }
}

impl HostsDump {
    /// Takes what came of the last operation and names the next one.
    pub fn advance(&mut self, event: HostsEvent) -> (action: HostsAction)
        requires
            old(self)@.table.well_formed(),
        ensures
            final(self)@.table.well_formed(),
            (final(self)@, action@) == old(self)@.after(event),
    {
        let counting = matches!(self.table.stage, DumpStage::Counting { .. });
        let event = match event {
            HostsEvent::Opened { reachable } => DumpEvent::Opened { reachable },
            HostsEvent::Located(located) => DumpEvent::Located(located),
            HostsEvent::Described(Ok(info)) => match current_host_slot(info.current_host) {
                Ok(current) => {
                    if counting {
                        self.current_host = current;
                    }
                    DumpEvent::Counted(Ok(info.host_count))
                },
                Err(error) => DumpEvent::Counted(Err(error)),
            },
            HostsEvent::Described(Err(error)) => DumpEvent::Counted(Err(error)),
            HostsEvent::Read(Ok(record)) => {
                let slot: u8 = self.table.rows.len() as u8;
                DumpEvent::Read(host_row(slot, record))
            },
            HostsEvent::Read(Err(error)) => DumpEvent::Read(Err(error)),
        };
        match self.table.advance(event) {
            DumpAction::Finish(Ok(slots)) => HostsAction::Finish(
                Ok(DiagnosticHosts { current_host: self.current_host, slots }),
            ),
            DumpAction::Finish(Err(error)) => HostsAction::Finish(Err(error)),
            other => HostsAction::Table(other),
        }
    }
}

/// Begins to read the Easy-Switch host table, without changing the active host.
pub fn dump_hosts(device_index: u8) -> (begun: (HostsDump, HostsAction))
    ensures
        begun.0@ == (HostsModel {
            current_host: None,
            table: TableModel::untouched(device_index, HOSTS_INFO, false),
        }),
        begun.0@.table.well_formed(),
        begun.1@ == HostsStep::Table(DumpStep::OpenDevice { device_index }),
{
    let (table, action) = TableDump::begin(device_index, HOSTS_INFO, false);
    (HostsDump { current_host: None, table }, HostsAction::Table(action))
}

/// The slots of a host table are numbered by their position.
pub open spec fn numbered(slots: Seq<DiagnosticHostSlot>) -> bool {
    forall|i: int| 0 <= i < slots.len() ==> (#[trigger] slots[i]).index == i
}

/// At every step of a readout the slots read so far are numbered by their
/// position, and so are the slots it ends with.
pub proof fn slots_stay_numbered(model: HostsModel, event: HostsEvent)
    requires
        model.table.well_formed(),
        numbered(model.table.rows),
    ensures
        numbered(model.after(event).0.table.rows),
        model.after(event).1 matches HostsStep::Finish(Ok((_, slots))) ==> numbered(slots),
{
}

} // verus!
