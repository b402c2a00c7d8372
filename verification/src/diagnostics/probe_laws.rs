//! What holds of every readout of a table, of firmware and of a battery.

use vstd::prelude::*;
use vstd::string::*;

use crate::diagnostics::battery::{
    battery_after, BatteryEvent, BatteryStage, BatteryStep, LegacyReport, UnifiedReport,
};
use crate::diagnostics::error::WriteError;
use crate::diagnostics::firmware::{
    entity_row, table_event, FirmwareEntity, FirmwareEntityInfo, FirmwareEvent, FirmwareFailure,
};
use crate::diagnostics::table::{
    a_table_is_read_whole_or_not_at_all, answered, first_unreadable, table_result, CidInfo,
    DumpEvent, DumpStage, DumpStep, ReprogControlEntry, TableAnswers, TableModel,
};
use crate::text::decimal;

verus! {

/// Where a readout begins.
pub open spec fn untouched_table<T>(
    device_index: u8,
    feature_hex: u16,
    one_beyond_count: bool,
) -> (TableModel<T>, DumpStep<T>) {
    (
        TableModel::<T>::untouched(device_index, feature_hex, one_beyond_count),
        DumpStep::OpenDevice { device_index },
    )
}

/// A readout of a device whose answers are these ends with this result.
pub open spec fn reads<T>(
    device_index: u8,
    feature_hex: u16,
    one_beyond_count: bool,
    answers: TableAnswers<T>,
    result: Result<Seq<T>, WriteError>,
) -> bool {
    exists|n: nat|
        (#[trigger] answered(
            untouched_table(device_index, feature_hex, one_beyond_count),
            answers,
            n,
        )).1 == DumpStep::Finish(result)
}

proof fn the_first_unreadable_row_is_found<T>(
    rows: spec_fn(int) -> Result<T, WriteError>,
    from: int,
    total: int,
    bad: int,
)
    requires
        from <= bad <= total,
        bad < total ==> rows(bad) is Err,
        forall|i: int| from <= i < bad ==> #[trigger] rows(i) is Ok,
    ensures
        first_unreadable(rows, from, total) == bad,
    decreases total - from,
{
    if from < bad {
        assert(rows(from) is Ok);
        the_first_unreadable_row_is_found(rows, from + 1, total, bad);
    }
}

/// A device that does not answer, or lacks the feature, or fails to say where the
/// feature is or how many rows there are, ends the readout with just that.
pub proof fn a_table_needs_its_feature<T>(
    device_index: u8,
    feature_hex: u16,
    one_beyond_count: bool,
    answers: TableAnswers<T>,
    error: WriteError,
)
    ensures
        !answers.reachable ==> reads(
            device_index,
            feature_hex,
            one_beyond_count,
            answers,
            Err(WriteError::DeviceUnreachable { index: device_index }),
        ),
        answers.reachable && answers.located == Ok::<Option<u8>, WriteError>(None) ==> reads(
            device_index,
            feature_hex,
            one_beyond_count,
            answers,
            Err(WriteError::FeatureUnsupported { feature_hex }),
        ),
        answers.reachable && answers.located == Err::<Option<u8>, WriteError>(error) ==> reads(
            device_index,
            feature_hex,
            one_beyond_count,
            answers,
            Err(error),
        ),
        answers.reachable && (answers.located matches Ok(located) && located is Some)
            && answers.counted == Err::<u8, WriteError>(error) ==> reads(
            device_index,
            feature_hex,
            one_beyond_count,
            answers,
            Err(error),
        ),
{
    a_table_is_read_whole_or_not_at_all(device_index, feature_hex, one_beyond_count, answers);
    let result = table_result(device_index, feature_hex, one_beyond_count, answers);
    assert(reads(device_index, feature_hex, one_beyond_count, answers, result));
}

/// A table whose rows can all be read is read whole: as many rows as the device
/// counts, and one more where the count leaves the first row out, each where it
/// stands in the table.
pub proof fn a_readable_table_is_read_whole<T>(
    device_index: u8,
    feature_hex: u16,
    one_beyond_count: bool,
    answers: TableAnswers<T>,
    count: u8,
    table: Seq<T>,
)
    requires
        answers.reachable,
        answers.located matches Ok(located) && located is Some,
        answers.counted == Ok::<u8, WriteError>(count),
        table.len() == if one_beyond_count {
            count + 1
        } else {
            count as int
        },
        forall|i: int|
            0 <= i < table.len() ==> (answers.rows)(i) == Ok::<T, WriteError>(#[trigger] table[i]),
    ensures
        reads(device_index, feature_hex, one_beyond_count, answers, Ok(table)),
{
    a_table_is_read_whole_or_not_at_all(device_index, feature_hex, one_beyond_count, answers);
    let result = table_result(device_index, feature_hex, one_beyond_count, answers);
    let total = table.len() as int;
    assert forall|i: int| 0 <= i < total implies #[trigger] (answers.rows)(i) is Ok by {
        assert((answers.rows)(i) == Ok::<T, WriteError>(table[i]));
    }
    the_first_unreadable_row_is_found(answers.rows, 0, total, total);
    assert(Seq::new(total as nat, |i: int| (answers.rows)(i)->Ok_0) =~= table) by {
        assert forall|i: int| 0 <= i < total implies (answers.rows)(i)->Ok_0 == #[trigger] table[i] by {
            assert((answers.rows)(i) == Ok::<T, WriteError>(table[i]));
        }
    }
    assert(result == Ok::<Seq<T>, WriteError>(table));
    assert(reads(device_index, feature_hex, one_beyond_count, answers, result));
}

/// The first row that cannot be read ends the readout with its own failure.
pub proof fn an_unreadable_row_ends_the_readout<T>(
    device_index: u8,
    feature_hex: u16,
    one_beyond_count: bool,
    answers: TableAnswers<T>,
    count: u8,
    bad: int,
    error: WriteError,
)
    requires
        answers.reachable,
        answers.located matches Ok(located) && located is Some,
        answers.counted == Ok::<u8, WriteError>(count),
        0 <= bad < if one_beyond_count {
            count + 1
        } else {
            count as int
        },
        (answers.rows)(bad) == Err::<T, WriteError>(error),
        forall|i: int| 0 <= i < bad ==> #[trigger] (answers.rows)(i) is Ok,
    ensures
        reads(device_index, feature_hex, one_beyond_count, answers, Err(error)),
{
    a_table_is_read_whole_or_not_at_all(device_index, feature_hex, one_beyond_count, answers);
    let result = table_result(device_index, feature_hex, one_beyond_count, answers);
    let total = if one_beyond_count {
        count + 1
    } else {
        count as int
    };
    the_first_unreadable_row_is_found(answers.rows, 0, total, bad);
    assert(reads(device_index, feature_hex, one_beyond_count, answers, result));
}

/// Rows are asked for at the index at which the feature was located.
pub proof fn rows_are_read_where_the_feature_is<T>(
    model: TableModel<T>,
    event: DumpEvent<T>,
)
    ensures
        match model.after(event).1 {
            DumpStep::LocateFeature { feature_hex } => feature_hex == model.feature_hex,
            DumpStep::ReadCount { feature_index } => event == DumpEvent::<T>::Located(
                Ok(Some(feature_index)),
            ),
            DumpStep::ReadRow { feature_index, .. } => (match model.stage {
                DumpStage::Counting { feature_index: at } => at == feature_index,
                DumpStage::Reading { feature_index: at, .. } => at == feature_index,
                _ => false,
            }),
            _ => true,
        },
{
}

/// A control is shown with its id, its task and its flags as the device sent
/// them.
pub proof fn a_control_is_shown_as_reported(info: CidInfo)
    ensures
        ({
            let entry =
                <ReprogControlEntry as vstd::std_specs::convert::FromSpec<CidInfo>>::from_spec(info);
            &&& entry.cid == info.cid
            &&& entry.task_id == info.task_id
            &&& entry.flags == info.flags
        }),
{
}

/// An entity that was read is shown as it was read. One that the device declines
/// or sends unreadably is shown with the reason. Each carries the index it was
/// asked for by. A channel that fails shows nothing.
pub proof fn an_entity_is_shown_as_it_was_read(
    index: u8,
    info: FirmwareEntityInfo,
    error: WriteError,
)
    ensures
        entity_row(index, Ok(info)) == Ok::<FirmwareEntity, WriteError>(
            FirmwareEntity::Readable { index, info },
        ),
        entity_row(index, Err(FirmwareFailure::Feature(error))) == Ok::<FirmwareEntity, WriteError>(
            FirmwareEntity::Unreadable { index, error },
        ),
        entity_row(index, Err(FirmwareFailure::UnsupportedResponse(error))) == Ok::<
            FirmwareEntity,
            WriteError,
        >(FirmwareEntity::Unreadable { index, error }),
        entity_row(index, Err(FirmwareFailure::Channel(error))) == Err::<FirmwareEntity, WriteError>(
            error,
        ),
{
}

/// Whether the device answers, where the feature is and how many entities there
/// are is taken as it comes.
pub proof fn a_firmware_readout_goes_by_the_device(
    read: nat,
    reachable: bool,
    located: Result<Option<u8>, WriteError>,
    counted: Result<u8, WriteError>,
)
    ensures
        table_event(read, FirmwareEvent::Opened { reachable }) == (DumpEvent::<
            FirmwareEntity,
        >::Opened { reachable }),
        table_event(read, FirmwareEvent::Located(located)) == DumpEvent::<FirmwareEntity>::Located(
            located,
        ),
        table_event(read, FirmwareEvent::Counted(counted)) == DumpEvent::<FirmwareEntity>::Counted(
            counted,
        ),
{
}

/// A channel failure while entities are read ends the readout with that failure.
pub proof fn a_lost_channel_ends_a_firmware_readout(
    model: TableModel<FirmwareEntity>,
    error: WriteError,
)
    requires
        model.well_formed(),
        model.stage is Reading,
    ensures
        model.after(
            table_event(model.rows.len(), FirmwareEvent::Read(Err(FirmwareFailure::Channel(error)))),
        ).1 == DumpStep::<FirmwareEntity>::Finish(Err(error)),
{
}

/// What a device answers to each question about its battery.
pub struct BatteryAnswers {
    /// Whether the device answers at all.
    pub reachable: bool,
    /// Where the unified feature is.
    pub unified: Result<Option<u8>, WriteError>,
    /// What the unified feature reports.
    pub unified_report: Result<UnifiedReport, String>,
    /// Where the legacy feature is.
    pub legacy: Result<Option<u8>, WriteError>,
    /// What the legacy feature reports.
    pub legacy_report: Result<LegacyReport, String>,
}

impl BatteryAnswers {
    /// The device's answer to one step.
    pub open spec fn reply_to(self, step: BatteryStep) -> BatteryEvent {
        match step {
            BatteryStep::OpenDevice { .. } => BatteryEvent::Opened { reachable: self.reachable },
            BatteryStep::LocateFeature { feature_hex } => BatteryEvent::Located(
                if feature_hex == 0x1004 {
                    self.unified
                } else {
                    self.legacy
                },
            ),
            BatteryStep::ReadUnified(_) => BatteryEvent::UnifiedRead(self.unified_report),
            _ => BatteryEvent::LegacyRead(self.legacy_report),
        }
    }
}

/// The step that a battery readout comes to within `rounds` answers.
pub open spec fn battery_end(
    device_index: u8,
    stage: BatteryStage,
    step: BatteryStep,
    answers: BatteryAnswers,
    rounds: nat,
) -> BatteryStep
    decreases rounds,
{
    if rounds == 0 || step is Finish {
        step
    } else {
        let next = battery_after(device_index, stage, answers.reply_to(step));
        battery_end(device_index, next.0, next.1, answers, (rounds - 1) as nat)
    }
}

/// Whether a lookup says that the device lacks the feature.
pub open spec fn lacks(located: Result<Option<u8>, WriteError>) -> bool {
    match located {
        Ok(None) => true,
        Err(WriteError::FeatureUnsupported { .. }) => true,
        _ => false,
    }
}

/// A battery readout shows the unified report word for word where the device has
/// that feature, and the legacy report only where it lacks it. Where it lacks
/// both, the unified feature is reported as missing; any other failure comes out
/// as it is.
pub proof fn a_battery_is_shown_as_reported(device_index: u8, answers: BatteryAnswers)
    ensures
        ({
            let end = battery_end(
                device_index,
                BatteryStage::Opening,
                BatteryStep::OpenDevice { device_index },
                answers,
                5,
            );
            let has_unified = answers.unified matches Ok(located) && located is Some;
            let has_legacy = answers.legacy matches Ok(located) && located is Some;
            if !answers.reachable {
                end == BatteryStep::Finish(
                    Err(WriteError::DeviceUnreachable { index: device_index }),
                )
            } else if has_unified {
                match answers.unified_report {
                    Ok(report) => end == BatteryStep::Finish(
                        Ok(
                            "0x1004 UnifiedBattery: percentage="@ + decimal(
                                report.charging_percentage as nat,
                            ) + " level="@ + report.level@ + " status="@ + report.status@,
                        ),
                    ),
                    Err(cause) => end == BatteryStep::Finish(Err(WriteError::Hidpp(cause))),
                }
            } else if !lacks(answers.unified) {
                end == BatteryStep::Finish(Err(answers.unified->Err_0))
            } else if has_legacy {
                match answers.legacy_report {
                    Ok(report) => end == BatteryStep::Finish(
                        Ok(
                            "0x1000 BatteryStatus: discharge_level="@ + decimal(
                                report.discharge_level as nat,
                            ) + " next_level="@ + decimal(report.next_level as nat) + " status="@
                                + report.status@,
                        ),
                    ),
                    Err(cause) => end == BatteryStep::Finish(Err(WriteError::Hidpp(cause))),
                }
            } else if lacks(answers.legacy) {
                end == BatteryStep::Finish(
                    Err(WriteError::FeatureUnsupported { feature_hex: 0x1004 }),
                )
            } else {
                end == BatteryStep::Finish(Err(answers.legacy->Err_0))
            }
        }),
{
    reveal_with_fuel(battery_end, 6);
}

/// A battery is read at the index at which its feature was located.
pub proof fn a_battery_is_read_where_its_feature_is(
    device_index: u8,
    stage: BatteryStage,
    event: BatteryEvent,
)
    ensures
        battery_after(device_index, stage, event).1 matches BatteryStep::ReadUnified(index) ==> (stage
            is LocatingUnified && event == BatteryEvent::Located(Ok(Some(index)))),
        battery_after(device_index, stage, event).1 matches BatteryStep::ReadLegacy(index) ==> (stage
            is LocatingLegacy && event == BatteryEvent::Located(Ok(Some(index)))),
{
}

} // verus!
