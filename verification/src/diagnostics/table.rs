//! Tables that a device reports row by row.

use vstd::prelude::*;

use crate::diagnostics::error::WriteError;

verus! {

/// HID++ id of the feature that lists the features of a device.
pub const FEATURE_SET: u16 = 0x0001;

/// HID++ id of the reprogrammable controls.
pub const REPROG_CONTROLS: u16 = 0x1b04;

/// Flags that a device advertises alongside a feature.
#[derive(Debug, Clone, Copy, PartialEq, Eq, Structural)]
pub struct FeatureType {
    /// Replaced by a newer feature, and advertised for older software.
    pub obsolete: bool,
    /// Not meant for end-user software.
    pub hidden: bool,
    /// Disabled for user software.
    pub engineering: bool,
    /// A manufacturing feature that can be deactivated for good.
    pub manufacturing_deactivatable: bool,
    /// A compliance feature that can be deactivated for good.
    pub compliance_deactivatable: bool,
}

/// Snapshot of one HID++ feature exposed by a device.
#[derive(Debug, Clone, Copy, PartialEq, Eq, Structural)]
pub struct FeatureEntry {
    /// HID++ feature ID.
    pub id: u16,
    /// Feature version reported by the device.
    pub version: u8,
    /// Flags advertised alongside the feature.
    pub typ: FeatureType,
}

/// What a device says about one reprogrammable control.
#[derive(Debug, Clone, Copy, PartialEq, Eq, Structural)]
pub struct CidInfo {
    /// HID++ control ID.
    pub cid: u16,
    /// Default task ID assigned to the control.
    pub task_id: u16,
    /// Group that the control can be remapped within.
    pub group: u8,
    /// Capability and classification flags, as the device sent them.
    pub flags: u16,
}

/// Snapshot of one reprogrammable control, by which controls of new devices can
/// be identified.
#[derive(Debug, Clone, Copy, PartialEq, Eq, Structural)]
pub struct ReprogControlEntry {
    /// HID++ control ID.
    pub cid: u16,
    /// Default task ID assigned to the control.
    pub task_id: u16,
    /// Capability and classification flags for the control.
    pub flags: u16,
}

impl vstd::std_specs::convert::FromSpecImpl<CidInfo> for ReprogControlEntry {
    open spec fn obeys_from_spec() -> bool {
        true
    }

    open spec fn from_spec(info: CidInfo) -> ReprogControlEntry {
        ReprogControlEntry { cid: info.cid, task_id: info.task_id, flags: info.flags }
    }
}

impl From<CidInfo> for ReprogControlEntry {
    fn from(info: CidInfo) -> (entry: Self) {
        ReprogControlEntry { cid: info.cid, task_id: info.task_id, flags: info.flags }
    }
}

/// What was asked for last.
#[derive(Debug, Clone, Copy, PartialEq, Eq, Structural)]
pub enum DumpStage {
    /// Opening the device.
    Opening,
    /// Locating the feature that holds the table.
    Locating,
    /// Reading how many rows there are.
    Counting {
        /// Runtime index of the feature.
        feature_index: u8,
    },
    /// Reading the next row.
    Reading {
        /// Runtime index of the feature.
        feature_index: u8,
        /// How many rows there are.
        total: u16,
    },
    /// Nothing more is asked.
    Finished,
}

/// A table readout under way.
#[derive(Debug)]
pub struct TableDump<T> {
    /// HID++ index of the device.
    pub device_index: u8,
    /// HID++ id of the feature that holds the table.
    pub feature_hex: u16,
    /// Whether the reported count leaves the row in front of it out.
    pub one_beyond_count: bool,
    /// What was asked for last.
    pub stage: DumpStage,
    /// Rows read so far.
    pub rows: Vec<T>,
}

/// Mathematical content of a [`TableDump`].
pub struct TableModel<T> {
    /// See [`TableDump::device_index`].
    pub device_index: u8,
    /// See [`TableDump::feature_hex`].
    pub feature_hex: u16,
    /// See [`TableDump::one_beyond_count`].
    pub one_beyond_count: bool,
    /// See [`TableDump::stage`].
    pub stage: DumpStage,
    /// See [`TableDump::rows`].
    pub rows: Seq<T>,
}

impl<T> View for TableDump<T> {
    type V = TableModel<T>;

    open spec fn view(&self) -> TableModel<T> {
        TableModel {
            device_index: self.device_index,
            feature_hex: self.feature_hex,
            one_beyond_count: self.one_beyond_count,
            stage: self.stage,
            rows: self.rows@,
        }
    }
}

/// What came of the operation asked for last.
#[derive(Debug)]
pub enum DumpEvent<T> {
    /// The device was opened, or does not answer.
    Opened {
        /// Whether the device answers.
        reachable: bool,
    },
    /// The feature lookup ended.
    Located(Result<Option<u8>, WriteError>),
    /// The count was read, or not.
    Counted(Result<u8, WriteError>),
    /// A row was read, or not.
    Read(Result<T, WriteError>),
}

/// The operation to perform next.
#[derive(Debug)]
pub enum DumpAction<T> {
    /// Open the device.
    OpenDevice {
        /// HID++ index of the device.
        device_index: u8,
    },
    /// Look a feature up.
    LocateFeature {
        /// HID++ id of the feature.
        feature_hex: u16,
    },
    /// Read how many rows there are.
    ReadCount {
        /// Runtime index of the feature.
        feature_index: u8,
    },
    /// Read one row.
    ReadRow {
        /// Runtime index of the feature.
        feature_index: u8,
        /// Zero-based row.
        row: u8,
    },
    /// The readout ended.
    Finish(Result<Vec<T>, WriteError>),
    /// The event answers nothing that was asked.
    Ignore,
}

/// Mathematical content of a [`DumpAction`].
pub enum DumpStep<T> {
    /// See [`DumpAction::OpenDevice`].
    OpenDevice { device_index: u8 },
    /// See [`DumpAction::LocateFeature`].
    LocateFeature { feature_hex: u16 },
    /// See [`DumpAction::ReadCount`].
    ReadCount { feature_index: u8 },
    /// See [`DumpAction::ReadRow`].
    ReadRow { feature_index: u8, row: u8 },
    /// See [`DumpAction::Finish`].
    Finish(Result<Seq<T>, WriteError>),
    /// See [`DumpAction::Ignore`].
    Ignore,
}

impl<T> View for DumpAction<T> {
    type V = DumpStep<T>;

    open spec fn view(&self) -> DumpStep<T> {
        match *self {
            DumpAction::OpenDevice { device_index } => DumpStep::OpenDevice { device_index },
            DumpAction::LocateFeature { feature_hex } => DumpStep::LocateFeature { feature_hex },
            DumpAction::ReadCount { feature_index } => DumpStep::ReadCount { feature_index },
            DumpAction::ReadRow { feature_index, row } => DumpStep::ReadRow {
                feature_index,
                row,
            },
            DumpAction::Finish(Ok(rows)) => DumpStep::Finish(Ok(rows@)),
            DumpAction::Finish(Err(error)) => DumpStep::Finish(Err(error)),
            DumpAction::Ignore => DumpStep::Ignore,
        }
    }
}

impl<T> TableModel<T> {
    /// The readout of a table of which nothing is known yet.
    pub open spec fn untouched(device_index: u8, feature_hex: u16, one_beyond_count: bool)
        -> TableModel<T> {
        TableModel {
            device_index,
            feature_hex,
            one_beyond_count,
            stage: DumpStage::Opening,
            rows: Seq::empty(),
        }
    }

    /// While rows are read, some are still missing, and their numbers fit the
    /// protocol. Before that none was read.
    pub open spec fn well_formed(self) -> bool {
        match self.stage {
            DumpStage::Reading { total, .. } => self.rows.len() < total <= 256,
            DumpStage::Finished => true,
            _ => self.rows.len() == 0,
        }
    }

    /// How many rows a reported count stands for.
    pub open spec fn total(self, count: u8) -> u16 {
        if self.one_beyond_count {
            (count + 1) as u16
        } else {
            count as u16
        }
    }

    /// The end of the readout, in a failure.
    pub open spec fn failed(self, error: WriteError) -> (TableModel<T>, DumpStep<T>) {
        (
            TableModel { stage: DumpStage::Finished, rows: Seq::empty(), ..self },
            DumpStep::Finish(Err(error)),
        )
    }

    /// Asks for the first row that is missing, if one is.
    pub open spec fn continued(self, feature_index: u8, total: u16) -> (
        TableModel<T>,
        DumpStep<T>,
    ) {
        if self.rows.len() < total {
            (
                TableModel { stage: DumpStage::Reading { feature_index, total }, ..self },
                DumpStep::ReadRow { feature_index, row: self.rows.len() as u8 },
            )
        } else {
            (
                TableModel { stage: DumpStage::Finished, rows: Seq::empty(), ..self },
                DumpStep::Finish(Ok(self.rows)),
            )
        }
    }

    /// Where the readout goes on `event`, and what it asks for.
    pub open spec fn after(self, event: DumpEvent<T>) -> (TableModel<T>, DumpStep<T>) {
        match (self.stage, event) {
            (DumpStage::Opening, DumpEvent::Opened { reachable }) => if reachable {
                (
                    TableModel { stage: DumpStage::Locating, ..self },
                    DumpStep::LocateFeature { feature_hex: self.feature_hex },
                )
            } else {
                self.failed(WriteError::DeviceUnreachable { index: self.device_index })
            },
            (DumpStage::Locating, DumpEvent::Located(located)) => match located {
                Ok(Some(feature_index)) => (
                    TableModel { stage: DumpStage::Counting { feature_index }, ..self },
                    DumpStep::ReadCount { feature_index },
                ),
                Ok(None) => self.failed(
                    WriteError::FeatureUnsupported { feature_hex: self.feature_hex },
                ),
                Err(error) => self.failed(error),
            },
            (DumpStage::Counting { feature_index }, DumpEvent::Counted(counted)) =>
                match counted {
                    Ok(count) => self.continued(feature_index, self.total(count)),
                    Err(error) => self.failed(error),
                },
            (DumpStage::Reading { feature_index, total }, DumpEvent::Read(read)) => match read {
                Ok(row) => TableModel { rows: self.rows.push(row), ..self }.continued(
                    feature_index,
                    total,
                ),
                Err(error) => self.failed(error),
            },
            _ => (self, DumpStep::Ignore),
        }
    }
}

impl<T> TableDump<T> {
    /// Begins to read a table.
    pub fn begin(device_index: u8, feature_hex: u16, one_beyond_count: bool) -> (begun: (
        Self,
        DumpAction<T>,
    ))
        ensures
            begun.0@ == TableModel::<T>::untouched(device_index, feature_hex, one_beyond_count),
            begun.0@.well_formed(),
            begun.1@ == (DumpStep::<T>::OpenDevice { device_index }),
    {
        let dump = TableDump {
            device_index,
            feature_hex,
            one_beyond_count,
            stage: DumpStage::Opening,
            rows: Vec::new(),
        };
        assert(dump@.rows =~= Seq::empty());
        (dump, DumpAction::OpenDevice { device_index })
    }

    fn fail(&mut self, error: WriteError) -> (action: DumpAction<T>)
        ensures
            (final(self)@, action@) == old(self)@.failed(error),
    {
        self.stage = DumpStage::Finished;
        self.rows = Vec::new();
        assert(self@.rows =~= Seq::empty());
        DumpAction::Finish(Err(error))
    }

    fn proceed(&mut self, feature_index: u8, total: u16) -> (action: DumpAction<T>)
        requires
            total <= 256,
        ensures
            (final(self)@, action@) == old(self)@.continued(feature_index, total),
    {
        let read: usize = self.rows.len();
        if read < total as usize {
            self.stage = DumpStage::Reading { feature_index, total };
            DumpAction::ReadRow { feature_index, row: read as u8 }
        } else {
            let mut rows: Vec<T> = Vec::new();
            core::mem::swap(&mut rows, &mut self.rows);
            self.stage = DumpStage::Finished;
            assert(self@.rows =~= Seq::empty());
            DumpAction::Finish(Ok(rows))
        }
    }

    /// Takes what came of the last operation and names the next one.
    pub fn advance(&mut self, event: DumpEvent<T>) -> (action: DumpAction<T>)
        requires
            old(self)@.well_formed(),
        ensures
            final(self)@.well_formed(),
            (final(self)@, action@) == old(self)@.after(event),
    {
        match (self.stage, event) {
            (DumpStage::Opening, DumpEvent::Opened { reachable }) => {
                if reachable {
                    self.stage = DumpStage::Locating;
                    DumpAction::LocateFeature { feature_hex: self.feature_hex }
                } else {
                    let index = self.device_index;
                    self.fail(WriteError::DeviceUnreachable { index })
                }
            },
            (DumpStage::Locating, DumpEvent::Located(located)) => match located {
                Ok(Some(feature_index)) => {
                    self.stage = DumpStage::Counting { feature_index };
                    DumpAction::ReadCount { feature_index }
                },
                Ok(None) => {
                    let feature_hex = self.feature_hex;
                    self.fail(WriteError::FeatureUnsupported { feature_hex })
                },
                Err(error) => self.fail(error),
            },
            (DumpStage::Counting { feature_index }, DumpEvent::Counted(counted)) =>
                match counted {
                    Ok(count) => {
                        let total: u16 = if self.one_beyond_count {
                            count as u16 + 1
                        } else {
                            count as u16
                        };
                        self.proceed(feature_index, total)
                    },
                    Err(error) => self.fail(error),
                },
            (DumpStage::Reading { feature_index, total }, DumpEvent::Read(read)) => match read {
                Ok(row) => {
                    self.rows.push(row);
                    self.proceed(feature_index, total)
                },
                Err(error) => self.fail(error),
            },
            _ => DumpAction::Ignore,
        }
    }
}

/// Begins to enumerate every HID++ feature that a device reports. The reported
/// count leaves the root feature out, which is row zero.
pub fn dump_features(device_index: u8) -> (begun: (
    TableDump<FeatureEntry>,
    DumpAction<FeatureEntry>,
))
    ensures
        begun.0@ == TableModel::<FeatureEntry>::untouched(device_index, FEATURE_SET, true),
        begun.0@.well_formed(),
        begun.1@ == (DumpStep::<FeatureEntry>::OpenDevice { device_index }),
{
    TableDump::begin(device_index, FEATURE_SET, true)
}

/// Begins to enumerate a device's reprogrammable controls.
pub fn dump_reprog_controls(device_index: u8) -> (begun: (
    TableDump<ReprogControlEntry>,
    DumpAction<ReprogControlEntry>,
))
    ensures
        begun.0@ == TableModel::<ReprogControlEntry>::untouched(
            device_index,
            REPROG_CONTROLS,
            false,
        ),
        begun.0@.well_formed(),
        begun.1@ == (DumpStep::<ReprogControlEntry>::OpenDevice { device_index }),
{
    TableDump::begin(device_index, REPROG_CONTROLS, false)
}

/// What a device answers to each question of a readout.
pub struct TableAnswers<T> {
    /// Whether the device answers at all.
    pub reachable: bool,
    /// Where the feature is.
    pub located: Result<Option<u8>, WriteError>,
    /// How many rows it reports.
    pub counted: Result<u8, WriteError>,
    /// What each row reads.
    pub rows: spec_fn(int) -> Result<T, WriteError>,
}

/// The answer to a step.
pub open spec fn answer<T>(answers: TableAnswers<T>, step: DumpStep<T>) -> DumpEvent<T> {
    match step {
        DumpStep::OpenDevice { .. } => DumpEvent::Opened { reachable: answers.reachable },
        DumpStep::LocateFeature { .. } => DumpEvent::Located(answers.located),
        DumpStep::ReadCount { .. } => DumpEvent::Counted(answers.counted),
        DumpStep::ReadRow { row, .. } => DumpEvent::Read((answers.rows)(row as int)),
        _ => DumpEvent::Opened { reachable: false },
    }
}

/// A readout and its step, after `n` answered steps.
pub open spec fn answered<T>(
    state: (TableModel<T>, DumpStep<T>),
    answers: TableAnswers<T>,
    n: nat,
) -> (TableModel<T>, DumpStep<T>)
    decreases n,
{
    if n == 0 {
        state
    } else {
        answered(state.0.after(answer(answers, state.1)), answers, (n - 1) as nat)
    }
}

/// The first row from `from` on that cannot be read, or `total`.
pub open spec fn first_unreadable<T>(
    rows: spec_fn(int) -> Result<T, WriteError>,
    from: int,
    total: int,
) -> int
    decreases total - from,
{
    if from >= total || rows(from) is Err {
        from
    } else {
        first_unreadable(rows, from + 1, total)
    }
}

/// What a readout of a table comes to, given the device's answers.
pub open spec fn table_result<T>(
    device_index: u8,
    feature_hex: u16,
    one_beyond_count: bool,
    answers: TableAnswers<T>,
) -> Result<Seq<T>, WriteError> {
    if !answers.reachable {
        Err(WriteError::DeviceUnreachable { index: device_index })
    } else {
        match answers.located {
            Err(error) => Err(error),
            Ok(None) => Err(WriteError::FeatureUnsupported { feature_hex }),
            Ok(Some(_)) => match answers.counted {
                Err(error) => Err(error),
                Ok(count) => {
                    let total = TableModel::<T>::untouched(
                        device_index,
                        feature_hex,
                        one_beyond_count,
                    ).total(count);
                    let stop = first_unreadable(answers.rows, 0, total as int);
                    if stop < total {
                        Err((answers.rows)(stop)->Err_0)
                    } else {
                        Ok(Seq::new(total as nat, |i: int| (answers.rows)(i)->Ok_0))
                    }
                },
            },
        }
    }
}

proof fn reading_reaches_its_end<T>(
    state: (TableModel<T>, DumpStep<T>),
    answers: TableAnswers<T>,
    feature_index: u8,
    total: u16,
)
    requires
        total <= 256,
        state.0.rows.len() < total,
        state.0.stage == (DumpStage::Reading { feature_index, total }),
        state.1 == (DumpStep::<T>::ReadRow { feature_index, row: state.0.rows.len() as u8 }),
        forall|i: int|
            0 <= i < state.0.rows.len() ==> (answers.rows)(i) == Ok::<T, WriteError>(
                #[trigger] state.0.rows[i],
            ),
    ensures
        exists|n: nat|
            (#[trigger] answered(state, answers, n)).1 == DumpStep::Finish(
                {
                    let stop = first_unreadable(
                        answers.rows,
                        state.0.rows.len() as int,
                        total as int,
                    );
                    if stop < total {
                        Err((answers.rows)(stop)->Err_0)
                    } else {
                        Ok(Seq::new(total as nat, |i: int| (answers.rows)(i)->Ok_0))
                    }
                },
            ),
    decreases total - state.0.rows.len(),
{
    let row = state.0.rows.len() as int;
    let next = state.0.after(answer(answers, state.1));
    assert(answered(next, answers, 0) == next);
    assert(answered(state, answers, 1) == answered(next, answers, 0));
    match (answers.rows)(row) {
        Err(error) => {
            assert(answered(state, answers, 1).1 == DumpStep::<T>::Finish(Err(error)));
        },
        Ok(value) => {
            let rows = state.0.rows.push(value);
            assert(first_unreadable(answers.rows, row, total as int) == first_unreadable(
                answers.rows,
                row + 1,
                total as int,
            ));
            if rows.len() < total {
                reading_reaches_its_end(next, answers, feature_index, total);
                let goal = DumpStep::<T>::Finish(
                    {
                        let stop = first_unreadable(answers.rows, row + 1, total as int);
                        if stop < total {
                            Err((answers.rows)(stop)->Err_0)
                        } else {
                            Ok(Seq::new(total as nat, |i: int| (answers.rows)(i)->Ok_0))
                        }
                    },
                );
                let n = choose|n: nat| (#[trigger] answered(next, answers, n)).1 == goal;
                assert(answered(state, answers, n + 1) == answered(next, answers, n));
            } else {
                assert(first_unreadable(answers.rows, row + 1, total as int) == total);
                assert(rows =~= Seq::new(total as nat, |i: int| (answers.rows)(i)->Ok_0));
            }
        },
    }
}

/// A readout ends, and it ends with every row in the order of the table, or with
/// the failure that came first.
pub proof fn a_table_is_read_whole_or_not_at_all<T>(
    device_index: u8,
    feature_hex: u16,
    one_beyond_count: bool,
    answers: TableAnswers<T>,
)
    ensures
        exists|n: nat|
            (#[trigger] answered(
                (
                    TableModel::<T>::untouched(device_index, feature_hex, one_beyond_count),
                    DumpStep::OpenDevice { device_index },
                ),
                answers,
                n,
            )).1 == DumpStep::Finish(
                table_result(device_index, feature_hex, one_beyond_count, answers),
            ),
{
    let s0 = (
        TableModel::<T>::untouched(device_index, feature_hex, one_beyond_count),
        DumpStep::<T>::OpenDevice { device_index },
    );
    let s1 = s0.0.after(answer(answers, s0.1));
    let s2 = s1.0.after(answer(answers, s1.1));
    let s3 = s2.0.after(answer(answers, s2.1));
    assert forall|n: nat| #[trigger] answered(s3, answers, n) == answered(s0, answers, n + 3) by {
        assert(answered(s0, answers, n + 3) == answered(s1, answers, n + 2));
        assert(answered(s1, answers, n + 2) == answered(s2, answers, n + 1));
    }
    assert(answered(s0, answers, 1) == answered(s1, answers, 0));
    assert(answered(s0, answers, 2) == answered(s1, answers, 1));
    assert(answered(s1, answers, 1) == answered(s2, answers, 0));
    assert(answered(s3, answers, 0) == s3);
    match (answers.reachable, answers.located, answers.counted) {
        (true, Ok(Some(feature_index)), Ok(count)) => {
            let total = s0.0.total(count);
            if total > 0 {
                reading_reaches_its_end(s3, answers, feature_index, total);
                let goal = DumpStep::<T>::Finish(
                    {
                        let stop = first_unreadable(answers.rows, 0, total as int);
                        if stop < total {
                            Err((answers.rows)(stop)->Err_0)
                        } else {
                            Ok(Seq::new(total as nat, |i: int| (answers.rows)(i)->Ok_0))
                        }
                    },
                );
                let n = choose|n: nat| (#[trigger] answered(s3, answers, n)).1 == goal;
                assert(answered(s3, answers, n).1 == goal);
                assert(goal == DumpStep::Finish(
                    table_result(device_index, feature_hex, one_beyond_count, answers),
                ));
                assert(answered(s0, answers, n + 3).1 == goal);
            } else {
                assert(answered(s0, answers, 3).1 == s3.1);
                assert(Seq::<T>::empty() =~= Seq::new(
                    total as nat,
                    |i: int| (answers.rows)(i)->Ok_0,
                ));
            }
        },
        (true, Ok(Some(_)), Err(_)) => {
            assert(answered(s0, answers, 3).1 == s3.1);
        },
        (true, _, _) => {
            assert(answered(s0, answers, 2).1 == s2.1);
        },
        (false, _, _) => {
            assert(answered(s0, answers, 1).1 == s1.1);
        },
    }
}

} // verus!
