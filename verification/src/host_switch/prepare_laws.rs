//! When a move is prepared, told from what the device answers.

use vstd::prelude::*;

use crate::host_switch::error::Fault;
use crate::host_switch::prepare::{
    driven, preparation, DeviceAnswers, HostSlotRequirement, PrepareReply, PrepareStage,
    PrepareStep, PreparedHostChange, HostPreparation,
};
use crate::host_switch::slots::{
    reader_for, slot_proved, HostIndex, HostSlotReply, HostSlotStatus, ReportedHostSlot,
    ReportedHostSlotReader,
};
use crate::text::decimal;

verus! {

/// A slot counts as empty, or as paired, exactly where a read succeeded, its
/// reply is about that very slot, and it says so. Everything else leaves it
/// unknown.
pub proof fn only_a_reply_about_the_slot_proves_anything(
    host: u8,
    read: Result<HostSlotReply, Fault>,
)
    ensures
        slot_proved(host, read) == ReportedHostSlot::Empty <==> (read matches Ok(reply)
            && reply.host_index == HostIndex::Slot(host) && reply.status == HostSlotStatus::Empty),
        slot_proved(host, read) == ReportedHostSlot::Paired <==> (read matches Ok(reply)
            && reply.host_index == HostIndex::Slot(host) && reply.status == HostSlotStatus::Paired),
{
}

/// Slots can be asked about exactly where the lookup found the feature, at the
/// index that it found. A failed lookup is told from a missing feature.
pub proof fn slots_are_read_where_the_feature_is(lookup: Result<Option<u8>, Fault>, index: u8)
    ensures
        reader_for(lookup) == ReportedHostSlotReader::Supported(index) <==> lookup == Ok::<
            Option<u8>,
            Fault,
        >(Some(index)),
        reader_for(lookup) == ReportedHostSlotReader::Unsupported <==> lookup == Ok::<
            Option<u8>,
            Fault,
        >(None),
        reader_for(lookup) == ReportedHostSlotReader::Unavailable <==> lookup is Err,
{
}

/// The device reports that a slot is empty.
pub open spec fn reports_empty(device: DeviceAnswers, host: u8) -> bool {
    &&& (device.hosts_info matches Ok(located) && located is Some)
    &&& (device.slot matches Ok(reply) && reply.host_index == HostIndex::Slot(host) && reply.status
        == HostSlotStatus::Empty)
}

/// The device reports that a slot is paired.
pub open spec fn reports_paired(device: DeviceAnswers, host: u8) -> bool {
    &&& (device.hosts_info matches Ok(located) && located is Some)
    &&& (device.slot matches Ok(reply) && reply.host_index == HostIndex::Slot(host) && reply.status
        == HostSlotStatus::Paired)
}

/// What a validation ends with, once the device has answered everything.
pub open spec fn verdict(
    device_index: u8,
    host: u8,
    requirement: HostSlotRequirement,
    device: DeviceAnswers,
) -> PrepareStep {
    driven(preparation(device_index, host, requirement), PrepareStep::OpenDevice, device, 5)
}

/// A validation ends with the failure of the first operation that fails, and
/// with a missing `ChangeHost` feature where the device has none.
pub proof fn the_first_failure_ends_a_validation(
    device_index: u8,
    host: u8,
    requirement: HostSlotRequirement,
    device: DeviceAnswers,
    fault: Fault,
)
    ensures
        device.opened == Err::<(), Fault>(fault) ==> verdict(device_index, host, requirement, device)
            == PrepareStep::Finish(Err(fault)),
        device.opened is Ok && device.change_host == Err::<Option<u8>, Fault>(fault) ==> verdict(
            device_index,
            host,
            requirement,
            device,
        ) == PrepareStep::Finish(Err(fault)),
        device.opened is Ok && device.change_host == Ok::<Option<u8>, Fault>(None) ==> verdict(
            device_index,
            host,
            requirement,
            device,
        ) == PrepareStep::Finish(Err(Fault::Hidpp("ChangeHost is unsupported"@))),
        device.opened is Ok && (device.change_host matches Ok(located) && located is Some)
            && device.info is Err && device.info->Err_0 == fault ==> verdict(
            device_index,
            host,
            requirement,
            device,
        ) == PrepareStep::Finish(Err(fault)),
{
    reveal_with_fuel(driven, 6);
}

/// Once a device has told which of its hosts it uses, its validation ends as
/// follows. A host that it does not have is refused. A host that it uses already
/// needs no move. A move to a host whose slot it reports empty is refused; where
/// the slot must be proved, so is one to a slot that it does not report paired.
/// Every other move is prepared, for that device, that host and the feature that
/// was found.
pub proof fn a_move_is_prepared_just_when_it_may_be(
    device_index: u8,
    host: u8,
    requirement: HostSlotRequirement,
    device: DeviceAnswers,
    feature_index: u8,
)
    requires
        device.opened is Ok,
        device.change_host == Ok::<Option<u8>, Fault>(Some(feature_index)),
        device.info is Ok,
    ensures
        ({
            let info = device.info->Ok_0;
            let end = verdict(device_index, host, requirement, device);
            &&& host >= info.host_count ==> end == PrepareStep::Finish(
                Err(
                    Fault::Hidpp(
                        "host "@ + decimal(host as nat) + " is outside device host count "@
                            + decimal(info.host_count as nat),
                    ),
                ),
            )
            &&& host < info.host_count && info.current_host == host ==> end == PrepareStep::Finish(
                Ok(PreparedHostChange { feature_index, device_index, host, required: false }),
            )
            &&& host < info.host_count && info.current_host != host ==> end == PrepareStep::Finish(
                if reports_empty(device, host) {
                    Err(Fault::HostSlotEmpty(host))
                } else if requirement == HostSlotRequirement::Paired && !reports_paired(
                    device,
                    host,
                ) {
                    Err(Fault::HostSlotUnverified(host))
                } else {
                    Ok(PreparedHostChange { feature_index, device_index, host, required: true })
                },
            )
        }),
{
    reveal_with_fuel(driven, 6);
}

/// A validation never writes: each of its steps is a lookup or a read, of the
/// slot that it is about and at the index that was found.
pub proof fn a_validation_reads_where_features_were_found(at: HostPreparation, reply: PrepareReply)
    ensures
        match at.after(reply).1 {
            PrepareStep::ReadHostInfo { feature_index } => at.stage is Locating && reply
                == PrepareReply::FeatureLocated(Ok(Some(feature_index))),
            PrepareStep::LocateHostsInfo => (at.stage matches PrepareStage::Reading { .. }) && (reply
                matches PrepareReply::HostInfoRead(Ok(info)) && info.current_host != at.host
                && at.host < info.host_count),
            PrepareStep::ReadSlot { slots_index, host } => host == at.host && reply
                == PrepareReply::SlotFeatureLocated(Ok(Some(slots_index))),
            PrepareStep::LocateChangeHost => at.stage is Opening && (reply matches
                PrepareReply::DeviceOpened(Ok(_))),
            PrepareStep::OpenDevice => false,
            _ => true,
        },
        at.after(reply).0.device_index == at.device_index,
        at.after(reply).0.host == at.host,
        at.after(reply).0.requirement == at.requirement,
{
}

} // verus!
