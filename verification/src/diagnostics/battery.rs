//! What a device's firmware reports about its battery, word for word.

use vstd::prelude::*;
use vstd::string::*;

use crate::diagnostics::error::WriteError;
use crate::text::{decimal, push_decimal};

verus! {

/// HID++ id of the unified battery feature.
pub const UNIFIED_BATTERY: u16 = 0x1004;

/// HID++ id of the legacy battery feature.
pub const BATTERY_STATUS: u16 = 0x1000;

/// A report of the unified battery feature.
#[derive(Debug)]
pub struct UnifiedReport {
    /// State of charge in percent.
    pub charging_percentage: u8,
    /// Name of the reported level.
    pub level: String,
    /// Name of the reported status.
    pub status: String,
}

/// A report of the legacy battery feature.
#[derive(Debug)]
pub struct LegacyReport {
    /// Current discharge level.
    pub discharge_level: u8,
    /// Level that comes next.
    pub next_level: u8,
    /// Name of the reported status.
    pub status: String,
}

/// The line that shows a unified report.
pub open spec fn unified_line(report: UnifiedReport) -> Seq<char> {
    "0x1004 UnifiedBattery: percentage="@ + decimal(report.charging_percentage as nat) + " level="@
        + report.level@ + " status="@ + report.status@
}

/// The line that shows a legacy report.
pub open spec fn legacy_line(report: LegacyReport) -> Seq<char> {
    "0x1000 BatteryStatus: discharge_level="@ + decimal(report.discharge_level as nat)
        + " next_level="@ + decimal(report.next_level as nat) + " status="@ + report.status@
}

/// Shows a unified report.
pub fn unified_text(report: &UnifiedReport) -> (line: String)
    ensures
        line@ == unified_line(*report),
{
    let mut line = String::new();
    line.append("0x1004 UnifiedBattery: percentage=");
    push_decimal(&mut line, report.charging_percentage as u64);
    line.append(" level=");
    line.append(report.level.as_str());
    line.append(" status=");
    line.append(report.status.as_str());
    assert(line@ =~= unified_line(*report));
    line
}

/// Shows a legacy report.
pub fn legacy_text(report: &LegacyReport) -> (line: String)
    ensures
        line@ == legacy_line(*report),
{
    let mut line = String::new();
    line.append("0x1000 BatteryStatus: discharge_level=");
    push_decimal(&mut line, report.discharge_level as u64);
    line.append(" next_level=");
    push_decimal(&mut line, report.next_level as u64);
    line.append(" status=");
    line.append(report.status.as_str());
    assert(line@ =~= legacy_line(*report));
    line
}

/// What was asked for last.
#[derive(Debug, Clone, Copy, PartialEq, Eq, Structural)]
pub enum BatteryStage {
    /// Opening the device.
    Opening,
    /// Locating the unified feature.
    LocatingUnified,
    /// Reading the unified feature.
    ReadingUnified,
    /// Locating the legacy feature.
    LocatingLegacy,
    /// Reading the legacy feature.
    ReadingLegacy,
    /// Nothing more is asked.
    Finished,
}

/// A battery readout under way.
#[derive(Debug)]
pub struct BatteryProbe {
    /// HID++ index of the device.
    pub device_index: u8,
    /// What was asked for last.
    pub stage: BatteryStage,
}

/// What came of the operation asked for last. Failed reads carry their cause as
/// text.
#[derive(Debug)]
pub enum BatteryEvent {
    /// The device was opened, or does not answer.
    Opened {
        /// Whether the device answers.
        reachable: bool,
    },
    /// The feature lookup ended.
    Located(Result<Option<u8>, WriteError>),
    /// The unified feature was read, or not.
    UnifiedRead(Result<UnifiedReport, String>),
    /// The legacy feature was read, or not.
    LegacyRead(Result<LegacyReport, String>),
}

/// The operation to perform next.
#[derive(Debug)]
pub enum BatteryAction {
    /// Open the device.
    OpenDevice {
        /// HID++ index of the device.
        device_index: u8,
    },
    /// Look a feature up.
    LocateFeature {
        /// HID++ id of the feature.
        feature_hex: u16,
    },
    /// Read the unified feature at this runtime index.
    ReadUnified(u8),
    /// Read the legacy feature at this runtime index.
    ReadLegacy(u8),
    /// The readout ended.
    Finish(Result<String, WriteError>),
    /// The event answers nothing that was asked.
    Ignore,
}

/// Mathematical content of a [`BatteryAction`].
pub enum BatteryStep {
    /// See [`BatteryAction::OpenDevice`].
    OpenDevice { device_index: u8 },
    /// See [`BatteryAction::LocateFeature`].
    LocateFeature { feature_hex: u16 },
    /// See [`BatteryAction::ReadUnified`].
    ReadUnified(u8),
    /// See [`BatteryAction::ReadLegacy`].
    ReadLegacy(u8),
    /// See [`BatteryAction::Finish`].
    Finish(Result<Seq<char>, WriteError>),
    /// See [`BatteryAction::Ignore`].
    Ignore,
}

impl View for BatteryAction {
    type V = BatteryStep;

    open spec fn view(&self) -> BatteryStep {
        match *self {
            BatteryAction::OpenDevice { device_index } => BatteryStep::OpenDevice { device_index },
            BatteryAction::LocateFeature { feature_hex } => BatteryStep::LocateFeature {
                feature_hex,
            },
            BatteryAction::ReadUnified(index) => BatteryStep::ReadUnified(index),
            BatteryAction::ReadLegacy(index) => BatteryStep::ReadLegacy(index),
            BatteryAction::Finish(Ok(line)) => BatteryStep::Finish(Ok(line@)),
            BatteryAction::Finish(Err(error)) => BatteryStep::Finish(Err(error)),
            BatteryAction::Ignore => BatteryStep::Ignore,
        }
    }
}

/// Where a probe at `stage` goes on `event`, and what it asks for. The unified
/// feature is preferred; where a device has neither, that is the one reported as
/// missing.
pub open spec fn battery_after(device_index: u8, stage: BatteryStage, event: BatteryEvent) -> (
    BatteryStage,
    BatteryStep,
) {
    match (stage, event) {
        (BatteryStage::Opening, BatteryEvent::Opened { reachable }) => if reachable {
            (
                BatteryStage::LocatingUnified,
                BatteryStep::LocateFeature { feature_hex: UNIFIED_BATTERY },
            )
        } else {
            (
                BatteryStage::Finished,
                BatteryStep::Finish(Err(WriteError::DeviceUnreachable { index: device_index })),
            )
        },
        (BatteryStage::LocatingUnified, BatteryEvent::Located(located)) => match located {
            Ok(Some(index)) => (BatteryStage::ReadingUnified, BatteryStep::ReadUnified(index)),
            Ok(None) | Err(WriteError::FeatureUnsupported { .. }) => (
                BatteryStage::LocatingLegacy,
                BatteryStep::LocateFeature { feature_hex: BATTERY_STATUS },
            ),
            Err(error) => (BatteryStage::Finished, BatteryStep::Finish(Err(error))),
        },
        (BatteryStage::LocatingLegacy, BatteryEvent::Located(located)) => match located {
            Ok(Some(index)) => (BatteryStage::ReadingLegacy, BatteryStep::ReadLegacy(index)),
            Ok(None) | Err(WriteError::FeatureUnsupported { .. }) => (
                BatteryStage::Finished,
                BatteryStep::Finish(
                    Err(WriteError::FeatureUnsupported { feature_hex: UNIFIED_BATTERY }),
                ),
            ),
            Err(error) => (BatteryStage::Finished, BatteryStep::Finish(Err(error))),
        },
        (BatteryStage::ReadingUnified, BatteryEvent::UnifiedRead(read)) => (
            BatteryStage::Finished,
            BatteryStep::Finish(
                match read {
                    Ok(report) => Ok(unified_line(report)),
                    Err(cause) => Err(WriteError::Hidpp(cause)),
                },
            ),
        ),
        (BatteryStage::ReadingLegacy, BatteryEvent::LegacyRead(read)) => (
            BatteryStage::Finished,
            BatteryStep::Finish(
                match read {
                    Ok(report) => Ok(legacy_line(report)),
                    Err(cause) => Err(WriteError::Hidpp(cause)),
                },
            ),
        ),
        _ => (stage, BatteryStep::Ignore),
    }
}

impl BatteryProbe {
    /// Takes what came of the last operation and names the next one.
    pub fn advance(&mut self, event: BatteryEvent) -> (action: BatteryAction)
        ensures
            final(self).device_index == old(self).device_index,
            (final(self).stage, action@) == battery_after(
                old(self).device_index,
                old(self).stage,
                event,
            ),
    {
        match (self.stage, event) {
            (BatteryStage::Opening, BatteryEvent::Opened { reachable }) => {
                if reachable {
                    self.stage = BatteryStage::LocatingUnified;
                    BatteryAction::LocateFeature { feature_hex: UNIFIED_BATTERY }
                } else {
                    self.stage = BatteryStage::Finished;
                    BatteryAction::Finish(
                        Err(WriteError::DeviceUnreachable { index: self.device_index }),
                    )
                }
            },
            (BatteryStage::LocatingUnified, BatteryEvent::Located(located)) => match located {
                Ok(Some(index)) => {
                    self.stage = BatteryStage::ReadingUnified;
                    BatteryAction::ReadUnified(index)
                },
                Ok(None) | Err(WriteError::FeatureUnsupported { .. }) => {
                    self.stage = BatteryStage::LocatingLegacy;
                    BatteryAction::LocateFeature { feature_hex: BATTERY_STATUS }
                },
                Err(error) => {
                    self.stage = BatteryStage::Finished;
                    BatteryAction::Finish(Err(error))
                },
            },
            (BatteryStage::LocatingLegacy, BatteryEvent::Located(located)) => match located {
                Ok(Some(index)) => {
                    self.stage = BatteryStage::ReadingLegacy;
                    BatteryAction::ReadLegacy(index)
                },
                Ok(None) | Err(WriteError::FeatureUnsupported { .. }) => {
                    self.stage = BatteryStage::Finished;
                    BatteryAction::Finish(
                        Err(WriteError::FeatureUnsupported { feature_hex: UNIFIED_BATTERY }),
                    )
                },
                Err(error) => {
                    self.stage = BatteryStage::Finished;
                    BatteryAction::Finish(Err(error))
                },
            },
            (BatteryStage::ReadingUnified, BatteryEvent::UnifiedRead(read)) => {
                self.stage = BatteryStage::Finished;
                BatteryAction::Finish(
                    match read {
                        Ok(report) => Ok(unified_text(&report)),
                        Err(cause) => Err(WriteError::Hidpp(cause)),
                    },
                )
            },
            (BatteryStage::ReadingLegacy, BatteryEvent::LegacyRead(read)) => {
                self.stage = BatteryStage::Finished;
                BatteryAction::Finish(
                    match read {
                        Ok(report) => Ok(legacy_text(&report)),
                        Err(cause) => Err(WriteError::Hidpp(cause)),
                    },
                )
            },
            _ => BatteryAction::Ignore,
        }
    }
}

/// Begins to read the raw battery report of a device.
pub fn read_battery_raw(device_index: u8) -> (begun: (BatteryProbe, BatteryAction))
    ensures
        begun.0.device_index == device_index,
        begun.0.stage == BatteryStage::Opening,
        begun.1@ == (BatteryStep::OpenDevice { device_index }),
{
    (
        BatteryProbe { device_index, stage: BatteryStage::Opening },
        BatteryAction::OpenDevice { device_index },
    )
}

} // verus!
