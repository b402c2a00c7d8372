//! What holds of follower selections over any number of edits.

use vstd::prelude::*;

use crate::devices::record::RecordView;
use crate::followers::{
    can_follow, follower_map, followers_at, has_followers, other_than, selection_with, AppModel,
    TargetView, UpdateView,
};
use crate::panel::{panel_row, panel_targets};
use crate::seqs::{filter_keeps_what_passes, filtered_items_pass, views};

verus! {

/// No keyboard follows itself.
pub open spec fn no_self_links(model: AppModel) -> bool {
    forall|key: Seq<char>| #[trigger]
        model.followers.contains_key(key) ==> !model.followers[key].contains(key)
}

/// No keyboard has a follower twice.
pub open spec fn no_repeated_followers(model: AppModel) -> bool {
    forall|key: Seq<char>| #[trigger]
        model.followers.contains_key(key) ==> model.followers[key].no_duplicates()
}

proof fn selections_stay_distinct(targets: Seq<Seq<char>>, key: Seq<char>, enabled: bool)
    requires
        targets.no_duplicates(),
    ensures
        selection_with(targets, key, enabled).no_duplicates(),
    decreases targets.len(),
{
    if enabled {
        let after = selection_with(targets, key, enabled);
        assert forall|i: int, j: int| 0 <= i < after.len() && 0 <= j < after.len() && i
            != j implies after[i] != after[j] by {
            if i < targets.len() && j < targets.len() {
                assert(targets[i] != targets[j]);
            }
        }
    } else {
        reveal(Seq::filter);
        if targets.len() > 0 {
            let start = targets.drop_last();
            let rest = start.filter(other_than(key));
            assert(start.no_duplicates());
            selections_stay_distinct(start, key, enabled);
            filtered_items_pass(start, other_than(key));
            let after = targets.filter(other_than(key));
            assert forall|i: int, j: int| 0 <= i < after.len() && 0 <= j < after.len() && i
                != j implies after[i] != after[j] by {
                let n = rest.len();
                if i < n && j < n {
                    assert(rest[i] != rest[j]);
                } else if i < n {
                    assert(rest.contains(rest[i]));
                    let m = choose|m: int| 0 <= m < start.len() && start[m] == rest[i];
                    assert(targets[m] != targets[targets.len() - 1]);
                } else {
                    assert(rest.contains(rest[j]));
                    let m = choose|m: int| 0 <= m < start.len() && start[m] == rest[j];
                    assert(targets[m] != targets[targets.len() - 1]);
                }
            }
        }
    }
}

/// After enabling a follower it is selected, after disabling it is not, and no
/// other follower is affected.
pub proof fn a_selection_holds_what_was_chosen(
    targets: Seq<Seq<char>>,
    key: Seq<char>,
    enabled: bool,
    other: Seq<char>,
)
    ensures
        selection_with(targets, key, enabled).contains(key) == enabled,
        other != key ==> (selection_with(targets, key, enabled).contains(other)
            == targets.contains(other)),
{
    let after = selection_with(targets, key, enabled);
    if enabled {
        if targets.contains(other) {
            let i = choose|i: int| 0 <= i < targets.len() && targets[i] == other;
            assert(after[i] == other);
        }
        if !targets.contains(key) {
            assert(after[targets.len() as int] == key);
            if after.contains(other) && other != key {
                let i = choose|i: int| 0 <= i < after.len() && after[i] == other;
                assert(targets[i] == other);
            }
        }
    } else {
        filtered_items_pass(targets, other_than(key));
    }
}

/// Choosing the same again changes nothing.
pub proof fn target_selection_repeats_harmlessly(
    targets: Seq<Seq<char>>,
    key: Seq<char>,
    enabled: bool,
)
    ensures
        selection_with(selection_with(targets, key, enabled), key, enabled) == selection_with(
            targets,
            key,
            enabled,
        ),
{
    let once = selection_with(targets, key, enabled);
    a_selection_holds_what_was_chosen(targets, key, enabled, key);
    if !enabled {
        assert forall|i: int| 0 <= i < once.len() implies other_than(key)(#[trigger] once[i]) by {
            assert(once.contains(once[i]));
        }
        filter_keeps_what_passes(once, other_than(key));
    }
}

/// Disabling a follower that was just added restores the selection.
pub proof fn disabling_undoes_enabling(targets: Seq<Seq<char>>, key: Seq<char>)
    requires
        !targets.contains(key),
    ensures
        selection_with(selection_with(targets, key, true), key, false) == targets,
{
    let added = targets.push(key);
    reveal(Seq::filter);
    assert(added.drop_last() =~= targets);
    assert forall|i: int| 0 <= i < targets.len() implies other_than(key)(
        #[trigger] targets[i],
    ) by {
        assert(targets.contains(targets[i]));
    }
    filter_keeps_what_passes(targets, other_than(key));
}

/// No update makes a keyboard follow itself or lists a follower twice.
pub proof fn updates_keep_selections_sound(
    model: AppModel,
    target: Seq<char>,
    enabled: bool,
    persisted: bool,
)
    ensures
        no_self_links(model) ==> no_self_links(model.update(target, enabled, persisted).0),
        no_repeated_followers(model) ==> no_repeated_followers(
            model.update(target, enabled, persisted).0,
        ),
{
    let after = model.update(target, enabled, persisted).0;
    if model.editable(target) {
        let key = model.keyboard_key()->Some_0;
        let targets = model.followers_of(key);
        a_selection_holds_what_was_chosen(targets, target, enabled, key);
        if no_repeated_followers(model) {
            assert(targets.no_duplicates());
            selections_stay_distinct(targets, target, enabled);
        }
    }
}

/// An update concerns the selected keyboard only, and leaves the devices and the
/// selection alone.
pub proof fn an_update_concerns_one_keyboard(
    model: AppModel,
    target: Seq<char>,
    enabled: bool,
    persisted: bool,
    key: Seq<char>,
)
    requires
        model.keyboard_key() != Some(key),
    ensures
        ({
            let after = model.update(target, enabled, persisted).0;
            &&& after.followers_of(key) == model.followers_of(key)
            &&& after.devices == model.devices
            &&& after.current == model.current
        }),
{
}

/// An update is reported as persisted exactly where it took effect, and a
/// rolled-back one leaves the state as it was.
pub proof fn an_update_reports_what_it_did(
    model: AppModel,
    target: Seq<char>,
    enabled: bool,
    persisted: bool,
)
    ensures
        ({
            let (after, update) = model.update(target, enabled, persisted);
            &&& update is RolledBack ==> after == model
            &&& update is Persisted ==> {
                let key = model.keyboard_key()->Some_0;
                update == UpdateView::Persisted(key) && after.followers_of(key).contains(target)
                    == enabled && model.followers_of(key).contains(target) != enabled
            }
            &&& update is Unchanged ==> forall|key: Seq<char>|
                after.followers_of(key) == #[trigger] model.followers_of(key)
        }),
{
    if model.editable(target) {
        let key = model.keyboard_key()->Some_0;
        a_selection_holds_what_was_chosen(model.followers_of(key), target, enabled, target);
    }
}

/// Every row that is offered can be edited, and shows what is selected.
pub proof fn offered_rows_can_be_edited(model: AppModel, n: int, row: int)
    requires
        model.keyboard_key() is Some,
        0 <= n <= model.devices.len(),
        ({
            let key = model.keyboard_key()->Some_0;
            0 <= row < AppModel::target_rows(
                key,
                model.followers_of(key),
                model.devices.take(n),
            ).len()
        }),
    ensures
        ({
            let key = model.keyboard_key()->Some_0;
            let shown = AppModel::target_rows(
                key,
                model.followers_of(key),
                model.devices.take(n),
            )[row];
            &&& model.editable(shown.config_key)
            &&& shown.selected == model.followers_of(key).contains(shown.config_key)
        }),
    decreases n,
{
    let key = model.keyboard_key()->Some_0;
    let selected = model.followers_of(key);
    let rows = AppModel::target_rows(key, selected, model.devices.take(n));
    let before = AppModel::target_rows(key, selected, model.devices.take(n - 1));
    assert(model.devices.take(n).drop_last() =~= model.devices.take(n - 1));
    assert(model.devices.take(n).last() == model.devices[n - 1]);
    if row < before.len() {
        offered_rows_can_be_edited(model, n - 1, row);
    } else {
        assert(model.devices[n - 1].persistent_key() == Some(rows[row].config_key));
        assert(can_follow(model.devices[n - 1]));
    }
}

/// The device is a persistent one with host keys that can be observed, so that it
/// can be followed, and goes by this key.
pub open spec fn leads_by(record: RecordView, key: Seq<char>) -> bool {
    &&& record.persistent
    &&& record.config_key == key
    &&& (record.capabilities matches Some(capabilities) && capabilities.host_switch_controls)
}

/// The device is a persistent one whose host can be switched by command, so that
/// it can follow, and goes by this key.
pub open spec fn follows_by(record: RecordView, key: Seq<char>) -> bool {
    &&& record.persistent
    &&& record.config_key == key
    &&& (record.capabilities matches Some(capabilities) && capabilities.host_switching)
}

/// Followers can be chosen exactly where the selected device can be followed, and
/// then for the key of that device.
pub proof fn the_selected_device_is_the_one_followed(model: AppModel, key: Seq<char>)
    requires
        0 <= model.current,
    ensures
        model.keyboard_key() == Some(key) <==> model.current < model.devices.len() && leads_by(
            model.devices[model.current],
            key,
        ),
{
}

/// The row tells of the device what a user needs: its key, its name, what it is,
/// whether it answers, and whether it is among the followers.
pub open spec fn tells_of(row: TargetView, record: RecordView, followers: Seq<Seq<char>>) -> bool {
    &&& row.config_key == record.config_key
    &&& row.display_name == record.display_name
    &&& row.kind == record.kind
    &&& row.online == record.online
    &&& row.selected <==> followers.contains(record.config_key)
}

proof fn an_eligible_device_has_a_row(
    key: Seq<char>,
    followers: Seq<Seq<char>>,
    devices: Seq<RecordView>,
    at: int,
) -> (row: int)
    requires
        0 <= at < devices.len(),
        follows_by(devices[at], devices[at].config_key),
        devices[at].config_key != key,
    ensures
        0 <= row < AppModel::target_rows(key, followers, devices).len(),
        tells_of(AppModel::target_rows(key, followers, devices)[row], devices[at], followers),
    decreases devices.len(),
{
    let start = devices.drop_last();
    let before = AppModel::target_rows(key, followers, start);
    let rows = AppModel::target_rows(key, followers, devices);
    if at < devices.len() - 1 {
        assert(start[at] == devices[at]);
        let row = an_eligible_device_has_a_row(key, followers, start, at);
        assert(rows[row] == before[row]);
        row
    } else {
        before.len() as int
    }
}

/// Every device that can follow has a row, asleep or not: wherever the selected
/// device can be followed, each other persistent device whose host can be switched
/// is offered, with its own key, name, kind and state.
pub proof fn every_device_that_can_follow_is_offered(model: AppModel, key: Seq<char>, at: int)
    requires
        0 <= model.current < model.devices.len(),
        leads_by(model.devices[model.current], key),
        0 <= at < model.devices.len(),
        follows_by(model.devices[at], model.devices[at].config_key),
        model.devices[at].config_key != key,
    ensures
        exists|row: int|
            0 <= row < panel_targets(model).len() && tells_of(
                #[trigger] panel_targets(model)[row],
                model.devices[at],
                model.followers_of(key),
            ),
{
    let row = an_eligible_device_has_a_row(key, model.followers_of(key), model.devices, at);
    assert(tells_of(panel_targets(model)[row], model.devices[at], model.followers_of(key)));
}

/// Whatever can be edited is offered.
pub proof fn whatever_can_be_edited_is_offered(model: AppModel, target: Seq<char>)
    requires
        0 <= model.current,
        model.editable(target),
    ensures
        exists|row: int|
            0 <= row < panel_targets(model).len() && (#[trigger] panel_targets(
                model,
            )[row]).config_key == target,
{
    let key = model.keyboard_key()->Some_0;
    let at = choose|at: int|
        0 <= at < model.devices.len() && (#[trigger] model.devices[at]).persistent_key() == Some(
            target,
        ) && can_follow(model.devices[at]);
    every_device_that_can_follow_is_offered(model, key, at);
    let row = choose|row: int|
        0 <= row < panel_targets(model).len() && tells_of(
            #[trigger] panel_targets(model)[row],
            model.devices[at],
            model.followers_of(key),
        );
    assert(panel_targets(model)[row].config_key == target);
}

proof fn a_row_has_its_device(
    key: Seq<char>,
    followers: Seq<Seq<char>>,
    devices: Seq<RecordView>,
    row: int,
) -> (at: int)
    requires
        0 <= row < AppModel::target_rows(key, followers, devices).len(),
    ensures
        0 <= at < devices.len(),
        devices[at].config_key != key,
        follows_by(devices[at], devices[at].config_key),
        tells_of(AppModel::target_rows(key, followers, devices)[row], devices[at], followers),
    decreases devices.len(),
{
    let start = devices.drop_last();
    let before = AppModel::target_rows(key, followers, start);
    if row < before.len() {
        let at = a_row_has_its_device(key, followers, start, row);
        assert(start[at] == devices[at]);
        at
    } else {
        devices.len() - 1
    }
}

/// Only devices that can follow are offered, never the selected one, and only
/// where the selected one can be followed.
pub proof fn only_devices_that_can_follow_are_offered(model: AppModel, row: int)
    requires
        0 <= model.current,
        0 <= row < panel_targets(model).len(),
    ensures
        model.current < model.devices.len(),
        ({
            let key = model.devices[model.current].config_key;
            &&& leads_by(model.devices[model.current], key)
            &&& exists|at: int|
                0 <= at < model.devices.len() && (#[trigger] model.devices[at]).config_key != key
                    && follows_by(model.devices[at], model.devices[at].config_key) && tells_of(
                    panel_targets(model)[row],
                    model.devices[at],
                    model.followers_of(key),
                )
        }),
{
    let key = model.keyboard_key()->Some_0;
    let at = a_row_has_its_device(key, model.followers_of(key), model.devices, row);
    assert(model.devices[at].config_key != key);
}

/// The rows come in the order of the list, one per device that can follow: the
/// rows of two lists together are those of the one and then those of the other,
/// and a single device that can follow has a single row.
pub proof fn rows_come_in_the_order_of_the_list(
    key: Seq<char>,
    followers: Seq<Seq<char>>,
    front: Seq<RecordView>,
    back: Seq<RecordView>,
    record: RecordView,
)
    ensures
        AppModel::target_rows(key, followers, front + back) == AppModel::target_rows(
            key,
            followers,
            front,
        ) + AppModel::target_rows(key, followers, back),
        AppModel::target_rows(key, followers, seq![record]).len() == if follows_by(
            record,
            record.config_key,
        ) && record.config_key != key {
            1
        } else {
            0nat
        },
    decreases back.len(),
{
    let rows = AppModel::target_rows(key, followers, front);
    assert(seq![record].drop_last() =~= Seq::<RecordView>::empty());
    assert(AppModel::target_rows(key, followers, seq![record].drop_last()).len() == 0);
    if back.len() == 0 {
        assert(front + back =~= front);
        assert(rows + AppModel::target_rows(key, followers, back) =~= rows);
    } else {
        rows_come_in_the_order_of_the_list(key, followers, front, back.drop_last(), record);
        assert((front + back).drop_last() =~= front + back.drop_last());
        assert((front + back).last() == back.last());
        assert(AppModel::target_rows(key, followers, front + back) =~= rows + AppModel::target_rows(
            key,
            followers,
            back,
        ));
    }
}

/// A panel shows each offered device under its own name and state, with a toggle
/// that edits that very device.
pub proof fn a_panel_row_shows_its_device(target: TargetView)
    ensures
        ({
            let row = panel_row(target);
            &&& row.target_key == target.config_key
            &&& row.toggle_id == "easy-switch-target-"@ + target.config_key
            &&& row.display_name == target.display_name
            &&& row.kind == target.kind
            &&& row.online == target.online
            &&& row.selected == target.selected
        }),
{
}

/// The followers of a keyboard are those of its first entry, and none where it
/// has no entry.
pub proof fn the_first_entry_counts(
    entries: Seq<(String, Vec<String>)>,
    key: Seq<char>,
    at: int,
)
    requires
        0 <= at <= entries.len(),
        forall|k: int| 0 <= k < at ==> (#[trigger] entries[k]).0@ != key,
        at < entries.len() ==> entries[at].0@ == key,
    ensures
        follower_map(entries).contains_key(key) <==> at < entries.len(),
        at < entries.len() ==> follower_map(entries)[key] == views(entries[at].1@),
{
    if at < entries.len() {
        assert(has_followers(entries, key));
        let found = followers_at(entries, key);
        assert(0 <= found < entries.len() && entries[found].0@ == key && forall|k: int|
            0 <= k < found ==> (#[trigger] entries[k]).0@ != key) by {
            assert(entries[at].0@ == key && forall|k: int|
                0 <= k < at ==> (#[trigger] entries[k]).0@ != key);
        }
        if found < at {
            assert(entries[found].0@ != key);
        } else if at < found {
            assert(entries[at].0@ != key);
        }
    }
}

/// An edit that may be made and can be persisted takes effect: a device that is
/// enabled joins the followers behind the others, and one that is disabled leaves
/// them. One that cannot be persisted is rolled back, and one that changes nothing
/// is not reported.
pub proof fn an_edit_takes_effect_where_it_may(
    model: AppModel,
    key: Seq<char>,
    at: int,
    enabled: bool,
    persisted: bool,
)
    requires
        0 <= model.current < model.devices.len(),
        leads_by(model.devices[model.current], key),
        0 <= at < model.devices.len(),
        follows_by(model.devices[at], model.devices[at].config_key),
        model.devices[at].config_key != key,
    ensures
        ({
            let target = model.devices[at].config_key;
            let before = model.followers_of(key);
            let (after, update) = model.update(target, enabled, persisted);
            if before.contains(target) == enabled {
                update == UpdateView::Unchanged && after.followers_of(key) == before
            } else if !persisted {
                update == UpdateView::RolledBack && after == model
            } else {
                &&& update == UpdateView::Persisted(key)
                &&& enabled ==> after.followers_of(key) == before.push(target)
                &&& !enabled ==> !after.followers_of(key).contains(target) && forall|other: Seq<char>|
                    other != target ==> (#[trigger] after.followers_of(key).contains(other)
                        == before.contains(other))
            }
        }),
{
    let target = model.devices[at].config_key;
    let before = model.followers_of(key);
    assert(model.devices[at].persistent_key() == Some(target) && can_follow(model.devices[at]));
    assert(model.offers(target));
    filtered_items_pass(before, other_than(target));
}

/// An edit that may not be made changes nothing: one of a device that is not
/// offered, of the keyboard itself, or without a keyboard to follow.
pub proof fn other_edits_change_nothing(
    model: AppModel,
    target: Seq<char>,
    enabled: bool,
    persisted: bool,
)
    requires
        0 <= model.current,
        model.current >= model.devices.len() || leads_by(model.devices[model.current], target)
            || !leads_by(model.devices[model.current], model.devices[model.current].config_key) || (
        forall|i: int| 0 <= i < model.devices.len() ==> !follows_by(#[trigger] model.devices[i], target)),
    ensures
        model.update(target, enabled, persisted) == (model, UpdateView::Unchanged),
{
    if model.editable(target) {
        let i = choose|i: int|
            0 <= i < model.devices.len() && (#[trigger] model.devices[i]).persistent_key() == Some(
                target,
            ) && can_follow(model.devices[i]);
        assert(follows_by(model.devices[i], target));
    }
}

/// Disabling a follower leaves the others in their order.
pub proof fn disabling_keeps_the_order(
    front: Seq<Seq<char>>,
    back: Seq<Seq<char>>,
    key: Seq<char>,
    other: Seq<char>,
)
    ensures
        selection_with(front + back, key, false) == selection_with(front, key, false)
            + selection_with(back, key, false),
        selection_with(seq![other], key, false) == if other == key {
            Seq::<Seq<char>>::empty()
        } else {
            seq![other]
        },
{
    Seq::filter_distributes_over_add(front, back, other_than(key));
    reveal_with_fuel(Seq::filter, 2);
    assert(seq![other].drop_last() =~= Seq::<Seq<char>>::empty());
    assert(selection_with(seq![other], key, false) =~= if other == key {
        Seq::<Seq<char>>::empty()
    } else {
        seq![other]
    });
}

} // verus!
