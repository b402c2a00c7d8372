//! The Easy-Switch panel: what it shows and what its toggles mean.

use vstd::prelude::*;
use vstd::string::*;

use crate::devices::model::DeviceKind;
use crate::devices::record::DeviceKey;
use crate::followers::{
    AppModel, AppState, HostSwitchTargetDevice, HostSwitchTargetUpdate, TargetView, UpdateView,
};
use crate::seqs::views;

verus! {

/// One row of the panel: a device that can follow, and its toggle.
#[derive(Debug, PartialEq, Eq)]
pub struct PanelRow {
    /// Key of the device, which its toggle edits.
    pub target_key: String,
    /// Id of its toggle.
    pub toggle_id: String,
    /// Name to show.
    pub display_name: String,
    /// What sort of device it is.
    pub kind: DeviceKind,
    /// Whether its badge shows it as answering.
    pub online: bool,
    /// Whether its toggle is on.
    pub selected: bool,
}

/// Mathematical content of a [`PanelRow`].
pub struct RowView {
    /// See [`PanelRow::target_key`].
    pub target_key: Seq<char>,
    /// See [`PanelRow::toggle_id`].
    pub toggle_id: Seq<char>,
    /// See [`PanelRow::display_name`].
    pub display_name: Seq<char>,
    /// See [`PanelRow::kind`].
    pub kind: DeviceKind,
    /// See [`PanelRow::online`].
    pub online: bool,
    /// See [`PanelRow::selected`].
    pub selected: bool,
}

impl View for PanelRow {
    type V = RowView;

    open spec fn view(&self) -> RowView {
        RowView {
            target_key: self.target_key@,
            toggle_id: self.toggle_id@,
            display_name: self.display_name@,
            kind: self.kind,
            online: self.online,
            selected: self.selected,
        }
    }
}

/// What the panel shows.
#[derive(Debug, PartialEq, Eq)]
pub struct EasySwitchPanel {
    /// Its rows.
    pub rows: Vec<PanelRow>,
    /// Whether it says that no compatible device was found.
    pub shows_empty_note: bool,
}

/// What a change of state is announced as.
#[derive(Debug, PartialEq, Eq)]
pub enum StateEvent {
    /// The configuration of one device changed.
    DeviceConfigChanged(DeviceKey),
    /// Settings changed, or fell back to what was saved.
    SettingsChanged,
}

/// The row of a device.
pub open spec fn panel_row(target: TargetView) -> RowView {
    RowView {
        target_key: target.config_key,
        toggle_id: "easy-switch-target-"@ + target.config_key,
        display_name: target.display_name,
        kind: target.kind,
        online: target.online,
        selected: target.selected,
    }
}

/// The devices that the panel of a state is about.
pub open spec fn panel_targets(model: AppModel) -> Seq<TargetView> {
    match model.keyboard_key() {
        Some(key) => AppModel::target_rows(key, model.followers_of(key), model.devices),
        None => Seq::empty(),
    }
}

/// Settings content for choosing which devices follow the selected keyboard. A
/// panel without a state to read shows no device.
pub fn easy_switch_panel(state: Option<&AppState>) -> (panel: EasySwitchPanel)
    ensures
        ({
            let targets = match state {
                Some(state) => panel_targets(state@),
                None => Seq::empty(),
            };
            &&& views(panel.rows@) == targets.map_values(|target: TargetView| panel_row(target))
            &&& panel.shows_empty_note == (targets.len() == 0)
        }),
{
    let targets: Vec<HostSwitchTargetDevice> = match state {
        Some(state) => state.host_switch_target_devices(),
        None => Vec::new(),
    };
    let ghost all = views(targets@).map_values(|target: TargetView| panel_row(target));
    let mut rows: Vec<PanelRow> = Vec::new();
    let mut i: usize = 0;
    assert(state is None ==> views(targets@) =~= Seq::<TargetView>::empty());
    assert(views(rows@) =~= all.take(0));
    while i < targets.len()
        invariant
            i <= targets@.len(),
            all == views(targets@).map_values(|target: TargetView| panel_row(target)),
            views(rows@) == all.take(i as int),
        decreases targets@.len() - i,
    {
        let target = &targets[i];
        let ghost before = views(rows@);
        rows.push(
            PanelRow {
                target_key: target.config_key.clone(),
                toggle_id: "easy-switch-target-".to_owned().concat(target.config_key.as_str()),
                display_name: target.display_name.clone(),
                kind: target.kind,
                online: target.online,
                selected: target.selected,
            },
        );
        proof {
            assert(views(targets@)[i as int] == target@);
            assert(views(rows@) =~= before.push(all[i as int]));
            assert(views(rows@) =~= all.take(i + 1));
        }
        i += 1;
    }
    assert(all.take(i as int) =~= all);
    let shows_empty_note = rows.len() == 0;
    assert(views(rows@).len() == rows@.len());
    EasySwitchPanel { rows, shows_empty_note }
}

/// The event that announces what a toggle did, if it did anything.
pub fn toggle_event(update: HostSwitchTargetUpdate) -> (event: Option<StateEvent>)
    ensures
        match (update@, event) {
            (UpdateView::Unchanged, None) => true,
            (UpdateView::Persisted(key), Some(StateEvent::DeviceConfigChanged(shown))) => shown@
                == key,
            (UpdateView::RolledBack, Some(StateEvent::SettingsChanged)) => true,
            _ => false,
        },
{
    match update {
        HostSwitchTargetUpdate::Unchanged => None,
        HostSwitchTargetUpdate::Persisted(key) => Some(StateEvent::DeviceConfigChanged(key)),
        HostSwitchTargetUpdate::RolledBack => Some(StateEvent::SettingsChanged),
    }
}

} // verus!
