//! Easy-Switch follower configuration as users see and edit it.

use vstd::prelude::*;
use vstd::string::*;

use crate::devices::model::DeviceKind;
use crate::devices::record::{DeviceKey, DeviceRecord, RecordView};
use crate::seqs::{filter_takes_one_more, views};
use crate::text::same_text;

verus! {

/// One device that can follow the selected keyboard's host key.
#[derive(Debug, PartialEq, Eq)]
pub struct HostSwitchTargetDevice {
    /// Key of its settings.
    pub config_key: String,
    /// Name to show.
    pub display_name: String,
    /// What sort of device it is.
    pub kind: DeviceKind,
    /// Whether it answers.
    pub online: bool,
    /// Whether it follows the keyboard.
    pub selected: bool,
}

/// Mathematical content of a [`HostSwitchTargetDevice`].
pub struct TargetView {
    /// See [`HostSwitchTargetDevice::config_key`].
    pub config_key: Seq<char>,
    /// See [`HostSwitchTargetDevice::display_name`].
    pub display_name: Seq<char>,
    /// See [`HostSwitchTargetDevice::kind`].
    pub kind: DeviceKind,
    /// See [`HostSwitchTargetDevice::online`].
    pub online: bool,
    /// See [`HostSwitchTargetDevice::selected`].
    pub selected: bool,
}

impl View for HostSwitchTargetDevice {
    type V = TargetView;

    open spec fn view(&self) -> TargetView {
        TargetView {
            config_key: self.config_key@,
            display_name: self.display_name@,
            kind: self.kind,
            online: self.online,
            selected: self.selected,
        }
    }
}

/// Result of attempting to change one Easy-Switch follower.
#[derive(Debug, PartialEq, Eq)]
pub enum HostSwitchTargetUpdate {
    /// The request was invalid or already matched the saved configuration.
    Unchanged,
    /// The new follower selection was persisted.
    Persisted(DeviceKey),
    /// Persistence failed and the in-memory selection was rolled back.
    RolledBack,
}

/// Mathematical content of a [`HostSwitchTargetUpdate`].
pub enum UpdateView {
    /// See [`HostSwitchTargetUpdate::Unchanged`].
    Unchanged,
    /// See [`HostSwitchTargetUpdate::Persisted`].
    Persisted(Seq<char>),
    /// See [`HostSwitchTargetUpdate::RolledBack`].
    RolledBack,
}

impl View for HostSwitchTargetUpdate {
    type V = UpdateView;

    open spec fn view(&self) -> UpdateView {
        match *self {
            HostSwitchTargetUpdate::Unchanged => UpdateView::Unchanged,
            HostSwitchTargetUpdate::Persisted(key) => UpdateView::Persisted(key@),
            HostSwitchTargetUpdate::RolledBack => UpdateView::RolledBack,
        }
    }
}

/// Whether a device's host can be switched by command, so that it can follow.
pub open spec fn can_follow(record: RecordView) -> bool {
    record.capabilities is Some && record.capabilities->Some_0.host_switching
}

/// Whether a device has observable host keys, so that it can be followed.
pub open spec fn can_lead(record: RecordView) -> bool {
    record.capabilities is Some && record.capabilities->Some_0.host_switch_controls
}

/// Whether a device can follow a keyboard.
pub fn is_compatible_target(record: &DeviceRecord) -> (compatible: bool)
    ensures
        compatible == can_follow(record@),
{
    match record.capabilities {
        Some(capabilities) => capabilities.host_switching,
        None => false,
    }
}

fn has_host_keys(record: &DeviceRecord) -> (leads: bool)
    ensures
        leads == can_lead(record@),
{
    match record.capabilities {
        Some(capabilities) => capabilities.host_switch_controls,
        None => false,
    }
}

/// Keys other than this one.
pub open spec fn other_than(key: Seq<char>) -> spec_fn(Seq<char>) -> bool {
    |other: Seq<char>| other != key
}

/// A selection in which one follower was enabled or disabled.
pub open spec fn selection_with(targets: Seq<Seq<char>>, key: Seq<char>, enabled: bool) -> Seq<
    Seq<char>,
> {
    if enabled {
        if targets.contains(key) {
            targets
        } else {
            targets.push(key)
        }
    } else {
        targets.filter(other_than(key))
    }
}

fn has_target(targets: &[String], key: &str) -> (found: bool)
    ensures
        found == views(targets@).contains(key@),
{
    let mut i: usize = 0;
    while i < targets.len()
        invariant
            i <= targets@.len(),
            forall|k: int| 0 <= k < i ==> views(targets@)[k] != key@,
        decreases targets@.len() - i,
    {
        if same_text(targets[i].as_str(), key) {
            assert(views(targets@)[i as int] == key@);
            return true;
        }
        i += 1;
    }
    false
}

fn retain_others(targets: &mut Vec<String>, key: &str)
    ensures
        views(final(targets)@) == views(old(targets)@).filter(other_than(key@)),
{
    let ghost all = views(targets@);
    let ghost keep = other_than(key@);
    let mut index: usize = 0;
    let ghost mut seen: int = 0;
    proof {
        reveal(Seq::filter);
        assert(all.take(0).filter(keep) =~= Seq::<Seq<char>>::empty());
        assert(views(targets@) =~= all.take(0).filter(keep) + all.skip(0));
    }
    while index < targets.len()
        invariant
            0 <= seen <= all.len(),
            index <= targets@.len(),
            keep == other_than(key@),
            index == all.take(seen).filter(keep).len(),
            views(targets@) == all.take(seen).filter(keep) + all.skip(seen),
        decreases all.len() - seen,
    {
        let ghost before = views(targets@);
        proof {
            assert(before.len() == index + (all.len() - seen));
            assert(seen < all.len());
            assert(before[index as int] == all[seen]);
            assert(before[index as int] == targets@[index as int]@);
            filter_takes_one_more(all, seen, keep);
        }
        if same_text(targets[index].as_str(), key) {
            let _ = targets.remove(index);
            assert(views(targets@) =~= before.remove(index as int));
            assert(views(targets@) =~= all.take(seen + 1).filter(keep) + all.skip(seen + 1));
        } else {
            index = index + 1;
            assert(before =~= all.take(seen + 1).filter(keep) + all.skip(seen + 1));
        }
        proof {
            seen = seen + 1;
        }
    }
    proof {
        assert(seen == all.len());
        assert(all.take(seen) =~= all);
        assert(views(targets@) =~= all.filter(keep));
    }
}

/// Enables or disables one follower, and tells whether that changed anything.
pub fn set_target_enabled(targets: &mut Vec<String>, target_key: &str, enabled: bool) -> (changed:
    bool)
    ensures
        changed == (enabled != views(old(targets)@).contains(target_key@)),
        views(final(targets)@) == if changed {
            selection_with(views(old(targets)@), target_key@, enabled)
        } else {
            views(old(targets)@)
        },
{
    let contains = has_target(targets.as_slice(), target_key);
    if enabled == contains {
        return false;
    }
    if enabled {
        let ghost before = views(targets@);
        targets.push(target_key.to_owned());
        assert(views(targets@) =~= before.push(target_key@));
    } else {
        retain_others(targets, target_key);
    }
    true
}

/// The devices, the selected one, and each keyboard's followers.
#[derive(Debug)]
pub struct AppState {
    /// Every device of the list.
    pub devices: Vec<DeviceRecord>,
    /// Position of the selected device.
    pub current: usize,
    /// Follower keys by keyboard key. Of two entries for one key the first
    /// counts.
    pub host_switch_targets: Vec<(String, Vec<String>)>,
}

/// Mathematical content of an [`AppState`].
pub struct AppModel {
    /// See [`AppState::devices`].
    pub devices: Seq<RecordView>,
    /// See [`AppState::current`].
    pub current: int,
    /// See [`AppState::host_switch_targets`].
    pub followers: Map<Seq<char>, Seq<Seq<char>>>,
}

/// Whether some entry has this key.
pub open spec fn has_followers(entries: Seq<(String, Vec<String>)>, key: Seq<char>) -> bool {
    exists|i: int| 0 <= i < entries.len() && (#[trigger] entries[i]).0@ == key
}

/// Position of the first entry with this key.
pub open spec fn followers_at(entries: Seq<(String, Vec<String>)>, key: Seq<char>) -> int {
    choose|i: int|
        0 <= i < entries.len() && (#[trigger] entries[i]).0@ == key && forall|k: int|
            0 <= k < i ==> (#[trigger] entries[k]).0@ != key
}

/// Followers by keyboard.
pub open spec fn follower_map(entries: Seq<(String, Vec<String>)>) -> Map<
    Seq<char>,
    Seq<Seq<char>>,
> {
    Map::new(
        |key: Seq<char>| has_followers(entries, key),
        |key: Seq<char>| views(entries[followers_at(entries, key)].1@),
    )
}

impl View for AppState {
    type V = AppModel;

    open spec fn view(&self) -> AppModel {
        AppModel {
            devices: views(self.devices@),
            current: self.current as int,
            followers: follower_map(self.host_switch_targets@),
        }
    }
}

proof fn the_first_entry_is_found(entries: Seq<(String, Vec<String>)>, key: Seq<char>, at: int)
    requires
        0 <= at < entries.len(),
        entries[at].0@ == key,
        forall|k: int| 0 <= k < at ==> (#[trigger] entries[k]).0@ != key,
    ensures
        has_followers(entries, key),
        followers_at(entries, key) == at,
{
    let found = followers_at(entries, key);
    assert(0 <= found < entries.len() && entries[found].0@ == key);
    if found < at {
        assert(entries[found].0@ != key);
    } else if at < found {
        assert(entries[at].0@ != key);
    }
}

proof fn an_entry_has_a_first(entries: Seq<(String, Vec<String>)>, key: Seq<char>, at: int) -> (
    first: int)
    requires
        0 <= at < entries.len(),
        entries[at].0@ == key,
    ensures
        0 <= first <= at,
        entries[first].0@ == key,
        forall|k: int| 0 <= k < first ==> (#[trigger] entries[k]).0@ != key,
    decreases at,
{
    if exists|k: int| 0 <= k < at && (#[trigger] entries[k]).0@ == key {
        let k = choose|k: int| 0 <= k < at && (#[trigger] entries[k]).0@ == key;
        an_entry_has_a_first(entries, key, k)
    } else {
        at
    }
}

proof fn one_entry_was_set(
    before: Seq<(String, Vec<String>)>,
    after: Seq<(String, Vec<String>)>,
    key: Seq<char>,
    at: int,
)
    requires
        0 <= at < after.len(),
        after[at].0@ == key,
        forall|k: int| 0 <= k < at ==> (#[trigger] before[k]).0@ != key,
        at <= before.len(),
        after.len() == if at < before.len() {
            before.len()
        } else {
            before.len() + 1
        },
        at < before.len() ==> before[at].0@ == key,
        forall|k: int| 0 <= k < before.len() && k != at ==> #[trigger] after[k] == before[k],
    ensures
        follower_map(after) == follower_map(before).insert(key, views(after[at].1@)),
{
    let old_map = follower_map(before);
    let new_map = follower_map(after);
    let expected = old_map.insert(key, views(after[at].1@));
    the_first_entry_is_found(after, key, at);
    assert forall|other: Seq<char>| other != key implies (has_followers(after, other)
        <==> has_followers(before, other)) && (has_followers(before, other) ==> (#[trigger]
    new_map[other]) == old_map[other]) by {
        if has_followers(after, other) {
            let i = choose|i: int| 0 <= i < after.len() && (#[trigger] after[i]).0@ == other;
            assert(before[i].0@ == other);
        }
        if has_followers(before, other) {
            let i = choose|i: int| 0 <= i < before.len() && (#[trigger] before[i]).0@ == other;
            let first = an_entry_has_a_first(before, other, i);
            the_first_entry_is_found(before, other, first);
            assert(after[first] == before[first]);
            assert forall|k: int| 0 <= k < first implies (#[trigger] after[k]).0@ != other by {
                if k != at {
                    assert(after[k] == before[k]);
                }
            }
            the_first_entry_is_found(after, other, first);
        }
    }
    assert(new_map.contains_key(key));
    assert forall|other: Seq<char>| #[trigger] new_map.contains_key(other)
        <==> expected.contains_key(other) by {
        if other != key {
            let value = new_map[other];
        }
    }
    assert(new_map =~= expected);
}

/// The edit that enables or disables one follower of a keyboard.
#[derive(Debug, PartialEq, Eq)]
pub struct FollowerEdit {
    /// Key of the keyboard's settings.
    pub keyboard_key: String,
    /// The followers it has after the edit.
    pub targets: Vec<String>,
}

impl AppModel {
    /// The selected device.
    pub open spec fn current_record(self) -> Option<RecordView> {
        if self.current < self.devices.len() {
            Some(self.devices[self.current])
        } else {
            None
        }
    }

    /// Key of the selected device, where it is a keyboard that can be followed.
    pub open spec fn keyboard_key(self) -> Option<Seq<char>> {
        match self.current_record() {
            Some(record) => if can_lead(record) {
                record.persistent_key()
            } else {
                None
            },
            None => None,
        }
    }

    /// Followers of a keyboard; none where nothing is configured.
    pub open spec fn followers_of(self, key: Seq<char>) -> Seq<Seq<char>> {
        if self.followers.contains_key(key) {
            self.followers[key]
        } else {
            Seq::empty()
        }
    }

    /// Some listed device goes by this key and can follow.
    pub open spec fn offers(self, key: Seq<char>) -> bool {
        exists|i: int|
            0 <= i < self.devices.len() && (#[trigger] self.devices[i]).persistent_key() == Some(
                key,
            ) && can_follow(self.devices[i])
    }

    /// Whether the selected keyboard can be given, or rid of, this follower.
    pub open spec fn editable(self, target: Seq<char>) -> bool {
        &&& self.keyboard_key() is Some
        &&& self.keyboard_key()->Some_0 != target
        &&& self.offers(target)
    }

    /// Whether the edit changes the selected keyboard's followers.
    pub open spec fn changes(self, target: Seq<char>, enabled: bool) -> bool {
        enabled != self.followers_of(self.keyboard_key()->Some_0).contains(target)
    }

    /// The state after the edit.
    pub open spec fn edited(self, target: Seq<char>, enabled: bool) -> AppModel {
        let key = self.keyboard_key()->Some_0;
        let targets = self.followers_of(key);
        AppModel {
            followers: self.followers.insert(
                key,
                if self.changes(target, enabled) {
                    selection_with(targets, target, enabled)
                } else {
                    targets
                },
            ),
            ..self
        }
    }

    /// What came of the edit, and the state it leaves.
    pub open spec fn update(self, target: Seq<char>, enabled: bool, persisted: bool) -> (
        AppModel,
        UpdateView,
    ) {
        if !self.editable(target) {
            (self, UpdateView::Unchanged)
        } else if !self.changes(target, enabled) {
            (self.edited(target, enabled), UpdateView::Unchanged)
        } else if persisted {
            (
                self.edited(target, enabled),
                UpdateView::Persisted(self.keyboard_key()->Some_0),
            )
        } else {
            (self, UpdateView::RolledBack)
        }
    }

    /// The row of a device, where it can follow the keyboard with this key.
    pub open spec fn target_row(
        keyboard_key: Seq<char>,
        selected: Seq<Seq<char>>,
        record: RecordView,
    ) -> Option<TargetView> {
        match record.persistent_key() {
            Some(key) if key != keyboard_key && can_follow(record) => Some(
                TargetView {
                    config_key: key,
                    display_name: record.display_name,
                    kind: record.kind,
                    online: record.online,
                    selected: selected.contains(key),
                },
            ),
            _ => None,
        }
    }

    /// The rows of the devices that can follow, in the order of the list.
    pub open spec fn target_rows(
        keyboard_key: Seq<char>,
        selected: Seq<Seq<char>>,
        devices: Seq<RecordView>,
    ) -> Seq<TargetView>
        decreases devices.len(),
    {
        if devices.len() == 0 {
            Seq::empty()
        } else {
            let before = AppModel::target_rows(keyboard_key, selected, devices.drop_last());
            match AppModel::target_row(keyboard_key, selected, devices.last()) {
                Some(row) => before.push(row),
                None => before,
            }
        }
    }
}

impl AppState {
    /// The selected device.
    pub fn current_record(&self) -> (record: Option<&DeviceRecord>)
        ensures
            match (record, self@.current_record()) {
                (Some(record), Some(expected)) => record@ == expected,
                (None, None) => true,
                _ => false,
            },
    {
        if self.current < self.devices.len() {
            assert(self@.devices[self.current as int] == self.devices@[self.current as int]@);
            Some(&self.devices[self.current])
        } else {
            None
        }
    }

    /// Key of the selected device, where it is a keyboard that can be followed.
    pub fn current_host_switch_keyboard_key(&self) -> (key: Option<&str>)
        ensures
            match (key, self@.keyboard_key()) {
                (Some(key), Some(expected)) => key@ == expected,
                (None, None) => true,
                _ => false,
            },
    {
        match self.current_record() {
            Some(record) => if has_host_keys(record) {
                record.persistent_config_key()
            } else {
                None
            },
            None => None,
        }
    }

    fn entry_of(&self, key: &str) -> (index: usize)
        ensures
            index <= self.host_switch_targets@.len(),
            forall|k: int|
                0 <= k < index ==> (#[trigger] self.host_switch_targets@[k]).0@ != key@,
            index < self.host_switch_targets@.len() ==> {
                &&& self.host_switch_targets@[index as int].0@ == key@
                &&& self@.followers.contains_key(key@)
                &&& self@.followers[key@] == views(self.host_switch_targets@[index as int].1@)
            },
            index == self.host_switch_targets@.len() ==> !self@.followers.contains_key(key@),
    {
        let mut i: usize = 0;
        while i < self.host_switch_targets.len()
            invariant
                i <= self.host_switch_targets@.len(),
                forall|k: int|
                    0 <= k < i ==> (#[trigger] self.host_switch_targets@[k]).0@ != key@,
            decreases self.host_switch_targets@.len() - i,
        {
            if same_text(self.host_switch_targets[i].0.as_str(), key) {
                proof {
                    the_first_entry_is_found(self.host_switch_targets@, key@, i as int);
                }
                return i;
            }
            i += 1;
        }
        i
    }

    fn followers_copy(&self, key: &str) -> (targets: Vec<String>)
        ensures
            views(targets@) == self@.followers_of(key@),
    {
        let index = self.entry_of(key);
        let mut targets: Vec<String> = Vec::new();
        if index < self.host_switch_targets.len() {
            let saved = &self.host_switch_targets[index].1;
            let mut i: usize = 0;
            while i < saved.len()
                invariant
                    i <= saved@.len(),
                    targets@ == saved@.take(i as int),
                decreases saved@.len() - i,
            {
                targets.push(saved[i].clone());
                i += 1;
            }
            assert(targets@ =~= saved@);
        } else {
            assert(views(targets@) =~= Seq::<Seq<char>>::empty());
        }
        targets
    }

    /// Devices eligible to follow the selected Easy-Switch keyboard.
    pub fn host_switch_target_devices(&self) -> (targets: Vec<HostSwitchTargetDevice>)
        ensures
            views(targets@) == match self@.keyboard_key() {
                Some(key) => AppModel::target_rows(
                    key,
                    self@.followers_of(key),
                    self@.devices,
                ),
                None => Seq::empty(),
            },
    {
        let mut targets: Vec<HostSwitchTargetDevice> = Vec::new();
        assert(views(targets@) =~= Seq::<TargetView>::empty());
        let keyboard_key = match self.current_host_switch_keyboard_key() {
            Some(key) => key,
            None => return targets,
        };
        let selected = self.followers_copy(keyboard_key);
        let ghost devices = self@.devices;
        let mut i: usize = 0;
        assert(devices.take(0) =~= Seq::<RecordView>::empty());
        while i < self.devices.len()
            invariant
                i <= self.devices@.len(),
                devices == views(self.devices@),
                views(targets@) == AppModel::target_rows(
                    keyboard_key@,
                    views(selected@),
                    devices.take(i as int),
                ),
            decreases self.devices@.len() - i,
        {
            let record = &self.devices[i];
            let ghost before = views(targets@);
            proof {
                assert(devices.take(i + 1).drop_last() =~= devices.take(i as int));
                assert(devices.take(i + 1).last() == record@);
            }
            if let Some(key) = record.persistent_config_key() {
                if !same_text(key, keyboard_key) && is_compatible_target(record) {
                    targets.push(
                        HostSwitchTargetDevice {
                            config_key: key.to_owned(),
                            display_name: record.display_name.clone(),
                            kind: record.kind,
                            online: record.online,
                            selected: has_target(selected.as_slice(), key),
                        },
                    );
                    assert(views(targets@) =~= before.push(targets@.last()@));
                }
            }
            i += 1;
        }
        assert(devices.take(i as int) =~= devices);
        targets
    }

    fn offers_target(&self, target_key: &str) -> (offered: bool)
        ensures
            offered == self@.offers(target_key@),
    {
        let ghost devices = self@.devices;
        let mut i: usize = 0;
        while i < self.devices.len()
            invariant
                i <= self.devices@.len(),
                devices == self@.devices,
                forall|k: int|
                    0 <= k < i ==> !((#[trigger] devices[k]).persistent_key() == Some(target_key@)
                        && can_follow(devices[k])),
            decreases self.devices@.len() - i,
        {
            let record = &self.devices[i];
            assert(devices[i as int] == record@);
            if let Some(key) = record.persistent_config_key() {
                if same_text(key, target_key) && is_compatible_target(record) {
                    assert(devices[i as int].persistent_key() == Some(target_key@));
                    return true;
                }
            }
            i += 1;
        }
        false
    }

    fn editable_keyboard(&self, target_key: &str) -> (key: Option<String>)
        ensures
            match key {
                Some(key) => self@.editable(target_key@) && self@.keyboard_key() == Some(key@),
                None => !self@.editable(target_key@),
            },
    {
        match self.current_host_switch_keyboard_key() {
            Some(key) => if !same_text(key, target_key) && self.offers_target(target_key) {
                Some(key.to_owned())
            } else {
                None
            },
            None => None,
        }
    }

    /// The selection to persist, where enabling or disabling this follower is
    /// valid and changes something.
    pub fn host_switch_target_edit(&self, target_key: &str, enabled: bool) -> (edit: Option<
        FollowerEdit,
    >)
        ensures
            match edit {
                Some(edit) => {
                    &&& self@.editable(target_key@)
                    &&& self@.changes(target_key@, enabled)
                    &&& self@.keyboard_key() == Some(edit.keyboard_key@)
                    &&& views(edit.targets@) == self@.edited(target_key@, enabled).followers_of(
                        edit.keyboard_key@,
                    )
                },
                None => !self@.editable(target_key@) || !self@.changes(target_key@, enabled),
            },
    {
        match self.editable_keyboard(target_key) {
            Some(keyboard_key) => {
                let mut targets = self.followers_copy(keyboard_key.as_str());
                if set_target_enabled(&mut targets, target_key, enabled) {
                    Some(FollowerEdit { keyboard_key, targets })
                } else {
                    None
                }
            },
            None => None,
        }
    }

    fn set_followers(&mut self, key: String, targets: Vec<String>)
        ensures
            final(self)@ == (AppModel {
                followers: old(self)@.followers.insert(key@, views(targets@)),
                ..old(self)@
            }),
    {
        let index = self.entry_of(key.as_str());
        let ghost before = self.host_switch_targets@;
        let ghost name = key@;
        if index < self.host_switch_targets.len() {
            self.host_switch_targets.set(index, (key, targets));
        } else {
            self.host_switch_targets.push((key, targets));
        }
        proof {
            one_entry_was_set(before, self.host_switch_targets@, name, index as int);
        }
    }

    /// Add or remove one follower of the selected keyboard, given whether the
    /// edit could be persisted. One that could not is rolled back.
    pub fn set_host_switch_target_enabled(
        &mut self,
        target_key: &str,
        enabled: bool,
        persisted: bool,
    ) -> (update: HostSwitchTargetUpdate)
        ensures
            (final(self)@, update@) == old(self)@.update(target_key@, enabled, persisted),
    {
        let keyboard_key = match self.editable_keyboard(target_key) {
            Some(key) => key,
            None => return HostSwitchTargetUpdate::Unchanged,
        };
        let event_key = DeviceKey(keyboard_key.clone());
        let mut targets = self.followers_copy(keyboard_key.as_str());
        let changed = set_target_enabled(&mut targets, target_key, enabled);
        if !changed {
            self.set_followers(keyboard_key, targets);
            HostSwitchTargetUpdate::Unchanged
        } else if persisted {
            self.set_followers(keyboard_key, targets);
            HostSwitchTargetUpdate::Persisted(event_key)
        } else {
            HostSwitchTargetUpdate::RolledBack
        }
    }
}

} // verus!
