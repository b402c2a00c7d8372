//! The firmware images that a device is made of.

use vstd::prelude::*;

use crate::diagnostics::error::WriteError;
use crate::diagnostics::table::{DumpAction, DumpEvent, DumpStep, TableDump, TableModel};

verus! {

/// HID++ id of the device information feature.
pub const DEVICE_INFORMATION: u16 = 0x0003;

/// What a firmware entity is.
#[derive(Debug, Clone, Copy, PartialEq, Eq, Structural)]
pub enum DeviceEntityType {
    /// The main application.
    MainApplication,
    /// The bootloader.
    Bootloader,
    /// The hardware itself.
    Hardware,
    /// A touchpad.
    Touchpad,
    /// An optical sensor.
    OpticalSensor,
    /// The radio stack.
    Softdevice,
    /// A companion radio controller.
    RfCompanionMcu,
    /// A factory application.
    FactoryApplication,
    /// A custom lighting effect.
    RgbCustomEffect,
    /// A motor drive.
    MotorDrive,
}

/// Firmware fields for one entity whose record was read and decoded.
#[derive(Debug, PartialEq, Eq)]
pub struct FirmwareEntityInfo {
    /// What the entity is.
    pub kind: DeviceEntityType,
    /// Three-letter prefix of the firmware name, e.g. `MPM`.
    pub prefix: String,
    /// Firmware number.
    pub number: u8,
    /// Firmware revision.
    pub revision: u8,
    /// Firmware build.
    pub build: u16,
    /// Whether this is the entity currently running.
    pub active: bool,
    /// USB or wireless product ID the entity runs under. Only the active entity
    /// is required to report a real value.
    pub transport_pid: u16,
    /// Optional extra versioning bytes, verbatim.
    pub extra_version: [u8; 5],
}

/// One firmware entity that a device declares.
#[derive(Debug, PartialEq, Eq)]
pub enum FirmwareEntity {
    /// The entity's record was read and decoded.
    Readable {
        /// Index of the entity in the device's own table.
        index: u8,
        /// The decoded firmware record.
        info: FirmwareEntityInfo,
    },
    /// The device declared the entity, but its record could not be read.
    ///
    /// Reported rather than dropped: omitting the row would claim the device has
    /// fewer firmware images than it says it has.
    Unreadable {
        /// Index of the entity in the device's own table.
        index: u8,
        /// Why the record could not be read.
        error: WriteError,
    },
}

/// Why a firmware record could not be read.
#[derive(Debug, PartialEq, Eq)]
pub enum FirmwareFailure {
    /// The device refused the read.
    Feature(WriteError),
    /// The device sent a record that cannot be decoded.
    UnsupportedResponse(WriteError),
    /// The channel failed.
    Channel(WriteError),
}

/// The row that the answer about one entity makes.
///
/// The device's own "no" is worth a row. A channel failure says nothing about
/// the entity: the route is gone, and with it the rest of the table.
pub open spec fn entity_row(index: u8, read: Result<FirmwareEntityInfo, FirmwareFailure>) -> Result<
    FirmwareEntity,
    WriteError,
> {
    match read {
        Ok(info) => Ok(FirmwareEntity::Readable { index, info }),
        Err(FirmwareFailure::Feature(error)) => Ok(FirmwareEntity::Unreadable { index, error }),
        Err(FirmwareFailure::UnsupportedResponse(error)) => Ok(
            FirmwareEntity::Unreadable { index, error },
        ),
        Err(FirmwareFailure::Channel(error)) => Err(error),
    }
}

/// Makes the row of one entity.
pub fn firmware_row(index: u8, read: Result<FirmwareEntityInfo, FirmwareFailure>) -> (row: Result<
    FirmwareEntity,
    WriteError,
>)
    ensures
        row == entity_row(index, read),
{
    match read {
        Ok(info) => Ok(FirmwareEntity::Readable { index, info }),
        Err(FirmwareFailure::Feature(error)) => Ok(FirmwareEntity::Unreadable { index, error }),
        Err(FirmwareFailure::UnsupportedResponse(error)) => Ok(
            FirmwareEntity::Unreadable { index, error },
        ),
        Err(FirmwareFailure::Channel(error)) => Err(error),
    }
}

/// What came of the operation asked for last.
#[derive(Debug)]
pub enum FirmwareEvent {
    /// The device was opened, or does not answer.
    Opened {
        /// Whether the device answers.
        reachable: bool,
    },
    /// The feature lookup ended.
    Located(Result<Option<u8>, WriteError>),
    /// The number of entities was read, or not.
    Counted(Result<u8, WriteError>),
    /// A record was read, or not.
    Read(Result<FirmwareEntityInfo, FirmwareFailure>),
}

/// A readout of the firmware table under way.
#[derive(Debug)]
pub struct FirmwareDump {
    /// The entities read so far.
    pub table: TableDump<FirmwareEntity>,
}

/// What `event` means to a table that holds `read` rows.
pub open spec fn table_event(read: nat, event: FirmwareEvent) -> DumpEvent<FirmwareEntity> {
    match event {
        FirmwareEvent::Opened { reachable } => DumpEvent::Opened { reachable },
        FirmwareEvent::Located(located) => DumpEvent::Located(located),
        FirmwareEvent::Counted(counted) => DumpEvent::Counted(counted),
        FirmwareEvent::Read(record) => DumpEvent::Read(entity_row(read as u8, record)),
    }
}

impl FirmwareDump {
    /// Takes what came of the last operation and names the next one.
    pub fn advance(&mut self, event: FirmwareEvent) -> (action: DumpAction<FirmwareEntity>)
        requires
            old(self).table@.well_formed(),
        ensures
            final(self).table@.well_formed(),
            (final(self).table@, action@) == old(self).table@.after(
                table_event(old(self).table@.rows.len(), event),
            ),
    {
        let entity: u8 = self.table.rows.len() as u8;
        let event = match event {
            FirmwareEvent::Opened { reachable } => DumpEvent::Opened { reachable },
            FirmwareEvent::Located(located) => DumpEvent::Located(located),
            FirmwareEvent::Counted(counted) => DumpEvent::Counted(counted),
            FirmwareEvent::Read(record) => DumpEvent::Read(firmware_row(entity, record)),
        };
        self.table.advance(event)
    }
}

/// Begins to read every firmware entity that a device reports.
pub fn dump_firmware_entities(device_index: u8) -> (begun: (
    FirmwareDump,
    DumpAction<FirmwareEntity>,
))
    ensures
        begun.0.table@ == TableModel::<FirmwareEntity>::untouched(
            device_index,
            DEVICE_INFORMATION,
            false,
        ),
        begun.0.table@.well_formed(),
        begun.1@ == (DumpStep::<FirmwareEntity>::OpenDevice { device_index }),
{
    let (table, action) = TableDump::begin(device_index, DEVICE_INFORMATION, false);
    (FirmwareDump { table }, action)
}

/// Index that an entity carries.
pub open spec fn entity_index(entity: FirmwareEntity) -> u8 {
    match entity {
        FirmwareEntity::Readable { index, .. } => index,
        FirmwareEntity::Unreadable { index, .. } => index,
    }
}

/// Every entity carries its position in the table.
pub open spec fn indexed(entities: Seq<FirmwareEntity>) -> bool {
    forall|i: int| 0 <= i < entities.len() ==> entity_index(#[trigger] entities[i]) == i
}

/// At every step of a readout the entities read so far carry their positions,
/// and so do the entities it ends with.
pub proof fn entities_keep_their_index(model: TableModel<FirmwareEntity>, event: FirmwareEvent)
    requires
        model.well_formed(),
        indexed(model.rows),
    ensures
        ({
            let (after, step) = model.after(table_event(model.rows.len(), event));
            &&& indexed(after.rows)
            &&& (step matches DumpStep::Finish(Ok(entities)) ==> indexed(entities))
        }),
{
}

/// An entity that the device declines or answers unreadably never ends a
/// readout early: it takes its row, and the readout goes on or is complete.
pub proof fn a_declined_entity_takes_its_row(
    model: TableModel<FirmwareEntity>,
    failure: FirmwareFailure,
)
    requires
        model.well_formed(),
        model.stage is Reading,
        !(failure is Channel),
    ensures
        ({
            let (after, step) = model.after(
                table_event(model.rows.len(), FirmwareEvent::Read(Err(failure))),
            );
            match step {
                DumpStep::ReadRow { row, .. } => row == model.rows.len() + 1 && after.rows.len()
                    == model.rows.len() + 1,
                DumpStep::Finish(Ok(entities)) => entities.len() == model.rows.len() + 1
                    && entities.len() == model.stage->Reading_total && entities.last()
                    is Unreadable,
                _ => false,
            }
        }),
{
}

} // verus!
