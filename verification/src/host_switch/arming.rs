//! Arming a keyboard's host controls, and putting them back.

use vstd::prelude::*;
use vstd::string::*;

use crate::host_switch::controls::{
    no_change, restoration, restoration_change, ArmedControl, CidReporting, CidReportingChange,
    ControlCleanup, ReportingMode,
};
use crate::host_switch::error::{hidpp_outcome, timed_hidpp, Fault, HostSwitchError, Timed};

verus! {

/// What a keyboard tells of one of its controls.
#[derive(Debug, Clone, Copy, PartialEq, Eq, Structural)]
pub struct CtrlIdInfo {
    /// Id of the control.
    pub cid: u16,
    /// Task that the control performs by default.
    pub task_id: u16,
    /// Zero-based host slot that the control selects, if it selects one.
    pub host: Option<u8>,
    /// Whether its presses can go to software only.
    pub divertable: bool,
    /// Whether its presses can be reported while they take effect.
    pub analytics: bool,
}

/// How a control can be made to report, if at all.
pub open spec fn reporting_mode(info: CtrlIdInfo) -> Option<ReportingMode> {
    if info.divertable {
        Some(ReportingMode::Diverted)
    } else if info.analytics {
        Some(ReportingMode::Analytics)
    } else {
        None
    }
}

/// The change that makes a control report analytics events.
pub open spec fn analytics_enabled() -> CidReportingChange {
    CidReportingChange { analytics_key_events: Some(true), ..no_change() }
}

/// What was asked of the keyboard last.
#[derive(Debug, Clone, Copy, PartialEq, Eq, Structural)]
pub enum ArmStage {
    /// Reading how many controls there are.
    Counting,
    /// Reading what one control is.
    ReadingInfo {
        /// Position of the control.
        index: u8,
    },
    /// Reading how a host control reports.
    ReadingReporting {
        /// Position of the control.
        index: u8,
        /// Id of the control.
        cid: u16,
        /// Zero-based host slot that it selects.
        host: u8,
        /// How it is going to report.
        mode: ReportingMode,
    },
    /// Changing how a host control reports.
    Writing {
        /// Position of the control.
        index: u8,
    },
    /// Nothing more is asked.
    Finished,
}

/// Arming, under way.
#[derive(Debug)]
pub struct ArmControls {
    /// Number of controls on the keyboard.
    count: u8,
    /// Host controls whose reporting may have been changed.
    armed: Vec<ArmedControl>,
    /// What was asked last.
    stage: ArmStage,
}

/// Mathematical content of an [`ArmControls`].
pub struct ArmModel {
    /// See [`ArmControls::count`].
    pub count: u8,
    /// See [`ArmControls::armed`].
    pub armed: Seq<ArmedControl>,
    /// See [`ArmControls::stage`].
    pub stage: ArmStage,
}

impl View for ArmControls {
    type V = ArmModel;

    closed spec fn view(&self) -> ArmModel {
        ArmModel { count: self.count, armed: self.armed@, stage: self.stage }
    }
}

/// What came of the operation asked for last.
pub enum ArmEvent {
    /// The control count was read, or not.
    Counted(Timed<u8, String>),
    /// A control was described, or not.
    InfoRead(Timed<CtrlIdInfo, String>),
    /// A control's reporting state was read, or not.
    ReportingRead(Timed<CidReporting, String>),
    /// A control was diverted, or not.
    Diverted(Timed<(), String>),
    /// A control's analytics reports were enabled, or not.
    AnalyticsEnabled(Timed<(), String>),
}

/// Mathematical content of an [`ArmEvent`].
pub enum ArmReply {
    /// See [`ArmEvent::Counted`].
    Counted(Result<u8, Fault>),
    /// See [`ArmEvent::InfoRead`].
    InfoRead(Result<CtrlIdInfo, Fault>),
    /// See [`ArmEvent::ReportingRead`].
    ReportingRead(Result<CidReporting, Fault>),
    /// See [`ArmEvent::Diverted`] and [`ArmEvent::AnalyticsEnabled`].
    Written(Result<(), Fault>),
}

impl View for ArmEvent {
    type V = ArmReply;

    open spec fn view(&self) -> ArmReply {
        match *self {
            ArmEvent::Counted(outcome) => ArmReply::Counted(
                hidpp_outcome("reading host control count"@, outcome),
            ),
            ArmEvent::InfoRead(outcome) => ArmReply::InfoRead(
                hidpp_outcome("reading host control information"@, outcome),
            ),
            ArmEvent::ReportingRead(outcome) => ArmReply::ReportingRead(
                hidpp_outcome("reading host control reporting"@, outcome),
            ),
            ArmEvent::Diverted(outcome) => ArmReply::Written(
                hidpp_outcome("diverting host control"@, outcome),
            ),
            ArmEvent::AnalyticsEnabled(outcome) => ArmReply::Written(
                hidpp_outcome("enabling host control analytics"@, outcome),
            ),
        }
    }
}

/// The operation to perform next.
pub enum ArmAction {
    /// Read how many controls there are.
    ReadCount,
    /// Read what one control is.
    ReadInfo {
        /// Position of the control.
        index: u8,
    },
    /// Read how a control reports.
    ReadReporting {
        /// Id of the control.
        cid: u16,
    },
    /// Divert a control.
    Divert {
        /// Id of the control.
        cid: u16,
    },
    /// Make a control report analytics events.
    EnableAnalytics {
        /// Id of the control.
        cid: u16,
        /// The change to write.
        change: CidReportingChange,
    },
    /// All host controls are armed.
    Armed(Vec<ArmedControl>),
    /// Arming failed; put these controls back, and report the error.
    RollBack {
        /// Controls whose reporting may have been changed.
        armed: Vec<ArmedControl>,
        /// Why arming failed.
        error: HostSwitchError,
    },
    /// The event answers nothing that was asked.
    Ignore,
}

/// Mathematical content of an [`ArmAction`].
pub enum ArmStep {
    /// See [`ArmAction::ReadCount`].
    ReadCount,
    /// See [`ArmAction::ReadInfo`].
    ReadInfo { index: u8 },
    /// See [`ArmAction::ReadReporting`].
    ReadReporting { cid: u16 },
    /// See [`ArmAction::Divert`].
    Divert { cid: u16 },
    /// See [`ArmAction::EnableAnalytics`].
    EnableAnalytics { cid: u16, change: CidReportingChange },
    /// See [`ArmAction::Armed`].
    Armed(Seq<ArmedControl>),
    /// See [`ArmAction::RollBack`].
    RollBack { armed: Seq<ArmedControl>, fault: Fault },
    /// See [`ArmAction::Ignore`].
    Ignore,
}

impl View for ArmAction {
    type V = ArmStep;

    open spec fn view(&self) -> ArmStep {
        match *self {
            ArmAction::ReadCount => ArmStep::ReadCount,
            ArmAction::ReadInfo { index } => ArmStep::ReadInfo { index },
            ArmAction::ReadReporting { cid } => ArmStep::ReadReporting { cid },
            ArmAction::Divert { cid } => ArmStep::Divert { cid },
            ArmAction::EnableAnalytics { cid, change } => ArmStep::EnableAnalytics { cid, change },
            ArmAction::Armed(armed) => ArmStep::Armed(armed@),
            ArmAction::RollBack { armed, error } => ArmStep::RollBack {
                armed: armed@,
                fault: error@,
            },
            ArmAction::Ignore => ArmStep::Ignore,
        }
    }
}

impl ArmModel {
    /// The same arming at another stage.
    pub open spec fn at(self, stage: ArmStage) -> ArmModel {
        ArmModel { stage, ..self }
    }

    /// Arming that handed its controls over.
    pub open spec fn handed_over(self) -> ArmModel {
        ArmModel { armed: Seq::empty(), stage: ArmStage::Finished, ..self }
    }

    /// Turns to the control at `index`, or ends after the last one.
    pub open spec fn turn_to(self, index: int) -> (ArmModel, ArmStep) {
        if index < self.count {
            (
                self.at(ArmStage::ReadingInfo { index: index as u8 }),
                ArmStep::ReadInfo { index: index as u8 },
            )
        } else {
            (self.handed_over(), ArmStep::Armed(self.armed))
        }
    }

    /// The end of an arming that failed.
    pub open spec fn failed(self, fault: Fault) -> (ArmModel, ArmStep) {
        (self.handed_over(), ArmStep::RollBack { armed: self.armed, fault })
    }

    /// Where arming goes on `reply`, and what it asks for.
    ///
    /// A control is recorded before its reporting is written: a write that
    /// seems to fail may have reached the keyboard, so the failing control
    /// must be put back as well.
    pub open spec fn after(self, reply: ArmReply) -> (ArmModel, ArmStep) {
        match (self.stage, reply) {
            (ArmStage::Counting, ArmReply::Counted(Ok(count))) => ArmModel {
                count,
                ..self
            }.turn_to(0),
            (ArmStage::Counting, ArmReply::Counted(Err(fault))) => self.failed(fault),
            (ArmStage::ReadingInfo { index }, ArmReply::InfoRead(Ok(info))) =>
                match (info.host, reporting_mode(info)) {
                    (Some(host), Some(mode)) => (
                        self.at(ArmStage::ReadingReporting { index, cid: info.cid, host, mode }),
                        ArmStep::ReadReporting { cid: info.cid },
                    ),
                    _ => self.turn_to(index + 1),
                },
            (ArmStage::ReadingInfo { .. }, ArmReply::InfoRead(Err(fault))) => self.failed(fault),
            (
                ArmStage::ReadingReporting { index, cid, host, mode },
                ArmReply::ReportingRead(Ok(original)),
            ) => (
                ArmModel {
                    armed: self.armed.push(ArmedControl { cid, host, mode, original }),
                    stage: ArmStage::Writing { index },
                    ..self
                },
                match mode {
                    ReportingMode::Diverted => ArmStep::Divert { cid },
                    ReportingMode::Analytics => ArmStep::EnableAnalytics {
                        cid,
                        change: analytics_enabled(),
                    },
                },
            ),
            (ArmStage::ReadingReporting { .. }, ArmReply::ReportingRead(Err(fault))) =>
                self.failed(fault),
            (ArmStage::Writing { index }, ArmReply::Written(Ok(_))) => self.turn_to(index + 1),
            (ArmStage::Writing { .. }, ArmReply::Written(Err(fault))) => self.failed(fault),
            _ => (self, ArmStep::Ignore),
        }
    }

    /// The control that the stage is about is one of the keyboard's.
    pub open spec fn well_formed(self) -> bool {
        match self.stage {
            ArmStage::ReadingInfo { index } => index < self.count,
            ArmStage::ReadingReporting { index, .. } => index < self.count,
            ArmStage::Writing { index } => index < self.count,
            _ => true,
        }
    }
}

impl ArmControls {
    fn take_armed(&mut self) -> (armed: Vec<ArmedControl>)
        ensures
            armed@ == old(self)@.armed,
            final(self)@ == old(self)@.handed_over(),
    {
        let mut armed: Vec<ArmedControl> = Vec::new();
        core::mem::swap(&mut armed, &mut self.armed);
        self.stage = ArmStage::Finished;
        armed
    }

    fn turn_to(&mut self, index: u8) -> (action: ArmAction)
        ensures
            (final(self)@, action@) == old(self)@.turn_to(index as int),
            final(self)@.well_formed(),
    {
        if index < self.count {
            self.stage = ArmStage::ReadingInfo { index };
            ArmAction::ReadInfo { index }
        } else {
            ArmAction::Armed(self.take_armed())
        }
    }

    fn fail(&mut self, error: HostSwitchError) -> (action: ArmAction)
        ensures
            (final(self)@, action@) == old(self)@.failed(error@),
            final(self)@.well_formed(),
    {
        ArmAction::RollBack { armed: self.take_armed(), error }
    }

    fn written(&mut self, index: u8, written: Result<(), HostSwitchError>) -> (action: ArmAction)
        requires
            index < old(self)@.count,
        ensures
            match written {
                Ok(_) => (final(self)@, action@) == old(self)@.turn_to(index + 1),
                Err(error) => (final(self)@, action@) == old(self)@.failed(error@),
            },
            final(self)@.well_formed(),
    {
        match written {
            Ok(_) => self.turn_to(index + 1),
            Err(error) => self.fail(error),
        }
    }

    /// Takes what came of the last operation and names the next one.
    pub fn advance(&mut self, event: ArmEvent) -> (action: ArmAction)
        requires
            old(self)@.well_formed(),
        ensures
            (final(self)@, action@) == old(self)@.after(event@),
            final(self)@.well_formed(),
    {
        match (self.stage, event) {
            (ArmStage::Counting, ArmEvent::Counted(outcome)) => match timed_hidpp(
                "reading host control count",
                outcome,
            ) {
                Ok(count) => {
                    self.count = count;
                    self.turn_to(0)
                },
                Err(error) => self.fail(error),
            },
            (ArmStage::ReadingInfo { index }, ArmEvent::InfoRead(outcome)) => match timed_hidpp(
                "reading host control information",
                outcome,
            ) {
                Ok(info) => {
                    let mode = if info.divertable {
                        Some(ReportingMode::Diverted)
                    } else if info.analytics {
                        Some(ReportingMode::Analytics)
                    } else {
                        None
                    };
                    match (info.host, mode) {
                        (Some(host), Some(mode)) => {
                            self.stage =
                            ArmStage::ReadingReporting { index, cid: info.cid, host, mode };
                            ArmAction::ReadReporting { cid: info.cid }
                        },
                        _ => self.turn_to(index + 1),
                    }
                },
                Err(error) => self.fail(error),
            },
            (
                ArmStage::ReadingReporting { index, cid, host, mode },
                ArmEvent::ReportingRead(outcome),
            ) => match timed_hidpp("reading host control reporting", outcome) {
                Ok(original) => {
                    self.armed.push(ArmedControl { cid, host, mode, original });
                    self.stage = ArmStage::Writing { index };
                    match mode {
                        ReportingMode::Diverted => ArmAction::Divert { cid },
                        ReportingMode::Analytics => ArmAction::EnableAnalytics {
                            cid,
                            change: CidReportingChange {
                                analytics_key_events: Some(true),
                                ..CidReportingChange::default()
                            },
                        },
                    }
                },
                Err(error) => self.fail(error),
            },
            (ArmStage::Writing { index }, ArmEvent::Diverted(outcome)) => {
                let written = timed_hidpp("diverting host control", outcome);
                self.written(index, written)
            },
            (ArmStage::Writing { index }, ArmEvent::AnalyticsEnabled(outcome)) => {
                let written = timed_hidpp("enabling host control analytics", outcome);
                self.written(index, written)
            },
            _ => ArmAction::Ignore,
        }
    }
}

/// Arming that has yet to count the controls.
pub open spec fn unarmed() -> ArmModel {
    ArmModel { count: 0, armed: Seq::empty(), stage: ArmStage::Counting }
}

/// Begins to arm the host controls of a keyboard.
pub fn arm_host_controls() -> (begun: (ArmControls, ArmAction))
    ensures
        begun.0@ == unarmed(),
        begun.0@.well_formed(),
        begun.1@ == ArmStep::ReadCount,
{
    let arming = ArmControls { count: 0, armed: Vec::new(), stage: ArmStage::Counting };
    assert(arming@.armed =~= Seq::empty());
    (arming, ArmAction::ReadCount)
}

/// Putting controls back, under way.
#[derive(Debug)]
pub struct RestoreControls {
    /// Controls to put back.
    pub armed: Vec<ArmedControl>,
    /// Position of the control that was written last.
    pub index: usize,
    /// Whether that write was its second.
    pub retried: bool,
    /// Whether a failed write is tried once more.
    pub cleanup: ControlCleanup,
}

/// Mathematical content of a [`RestoreControls`].
pub struct RestoreModel {
    /// See [`RestoreControls::armed`].
    pub armed: Seq<ArmedControl>,
    /// See [`RestoreControls::index`].
    pub index: int,
    /// See [`RestoreControls::retried`].
    pub retried: bool,
    /// See [`RestoreControls::cleanup`].
    pub cleanup: ControlCleanup,
}

impl View for RestoreControls {
    type V = RestoreModel;

    open spec fn view(&self) -> RestoreModel {
        RestoreModel {
            armed: self.armed@,
            index: self.index as int,
            retried: self.retried,
            cleanup: self.cleanup,
        }
    }
}

/// The operation that puts controls back, or its end.
#[derive(Debug, Clone, Copy, PartialEq, Eq, Structural)]
pub enum RestoreAction {
    /// Write a control's reporting state.
    Write {
        /// Id of the control.
        cid: u16,
        /// The change to write.
        change: CidReportingChange,
    },
    /// Every control had its turn.
    Done,
}

impl RestoreModel {
    /// What is to be done about the control at the current position.
    pub open spec fn wanted(self) -> RestoreAction {
        if 0 <= self.index < self.armed.len() {
            RestoreAction::Write {
                cid: self.armed[self.index].cid,
                change: restoration(self.armed[self.index]),
            }
        } else {
            RestoreAction::Done
        }
    }

    /// Where putting back goes after a write that ended well or not.
    pub open spec fn after(self, written: bool) -> RestoreModel {
        if self.index >= self.armed.len() {
            self
        } else if !written && !self.retried && self.cleanup == ControlCleanup::Full {
            RestoreModel { retried: true, ..self }
        } else {
            RestoreModel { index: self.index + 1, retried: false, ..self }
        }
    }
}

impl RestoreControls {
    /// What is to be done next.
    pub fn next(&self) -> (action: RestoreAction)
        ensures
            action == self@.wanted(),
    {
        if self.index < self.armed.len() {
            let control = self.armed[self.index];
            RestoreAction::Write { cid: control.cid, change: restoration_change(control) }
        } else {
            RestoreAction::Done
        }
    }

    /// Takes whether the last write ended well, and names what to do next.
    pub fn advance(&mut self, written: bool) -> (action: RestoreAction)
        ensures
            final(self)@ == old(self)@.after(written),
            action == final(self)@.wanted(),
    {
        if self.index < self.armed.len() {
            if !written && !self.retried && self.cleanup == ControlCleanup::Full {
                self.retried = true;
            } else {
                self.index += 1;
                self.retried = false;
            }
        }
        self.next()
    }
}

/// Putting controls back before any was written.
pub open spec fn restoring(armed: Seq<ArmedControl>, cleanup: ControlCleanup) -> RestoreModel {
    RestoreModel { armed, index: 0, retried: false, cleanup }
}

/// Begins to put controls back, each with one retry.
pub fn restore_host_controls(armed: Vec<ArmedControl>) -> (begun: (RestoreControls, RestoreAction))
    ensures
        begun.0@ == restoring(armed@, ControlCleanup::Full),
        begun.1 == begun.0@.wanted(),
{
    let restore = RestoreControls { armed, index: 0, retried: false, cleanup: ControlCleanup::Full };
    let action = restore.next();
    (restore, action)
}

/// Begins to put the controls of a keyboard back that may be leaving: a write
/// that is not answered is not repeated.
pub fn restore_host_controls_promptly(armed: Vec<ArmedControl>) -> (begun: (
    RestoreControls,
    RestoreAction,
))
    ensures
        begun.0@ == restoring(armed@, ControlCleanup::Prompt),
        begun.1 == begun.0@.wanted(),
{
    let restore = RestoreControls {
        armed,
        index: 0,
        retried: false,
        cleanup: ControlCleanup::Prompt,
    };
    let action = restore.next();
    (restore, action)
}

} // verus!
