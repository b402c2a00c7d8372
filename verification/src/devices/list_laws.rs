//! What holds of every device list.

use vstd::prelude::*;

use crate::devices::list::{
    device_list, gathered, live_records, named, receivers, InventoryView,
};
use crate::devices::offline::{
    admitted, lists_key, unreachable_entry, with_known, with_offline, KnownDevice, KnownView,
};
use crate::devices::record::{DeviceRecord, RecordView};
use crate::devices::sighting::{CameraView, StandaloneView};
use crate::sorting::{
    arranged, sorting_forgets_the_order_of_arrival, sorting_keeps_the_items, told_apart, Sortable,
};

verus! {

/// The record is the placeholder of one of these devices, which is neither
/// transient nor out of reach.
pub open spec fn stands_for_one_of(
    record: RecordView,
    known: Seq<KnownView>,
    present: Seq<Seq<char>>,
) -> bool {
    exists|i: int|
        0 <= i < known.len() && (#[trigger] known[i]).placeholder() == record
            && !known[i].transient && !unreachable_entry(known[i].key, known[i].links, present)
}

proof fn admission_keeps_what_is_listed(
    list: Seq<RecordView>,
    known: Seq<KnownView>,
    present: Seq<Seq<char>>,
)
    ensures
        list.is_prefix_of(with_known(list, known, present)),
        forall|i: int|
            list.len() <= i < with_known(list, known, present).len() ==> stands_for_one_of(
                #[trigger] with_known(list, known, present)[i],
                known,
                present,
            ),
        forall|i: int, j: int|
            0 <= i < j && list.len() <= j < with_known(list, known, present).len() ==> (
            #[trigger] with_known(list, known, present)[i]).config_key != (
            #[trigger] with_known(list, known, present)[j]).config_key,
    decreases known.len(),
{
    if known.len() > 0 {
        let start = known.drop_last();
        admission_keeps_what_is_listed(list, start, present);
        let before = with_known(list, start, present);
        let after = with_known(list, known, present);
        assert forall|i: int| list.len() <= i < after.len() implies stands_for_one_of(
            #[trigger] after[i],
            known,
            present,
        ) by {
            if i < before.len() {
                assert(after[i] == before[i]);
                let k = choose|k: int|
                    0 <= k < start.len() && (#[trigger] start[k]).placeholder() == before[i]
                        && !start[k].transient && !unreachable_entry(
                        start[k].key,
                        start[k].links,
                        present,
                    );
                assert(known[k] == start[k]);
            } else {
                assert(known[known.len() - 1].placeholder() == after[i]);
            }
        }
        assert forall|i: int, j: int| 0 <= i < j && list.len() <= j < after.len() implies (
        #[trigger] after[i]).config_key != (#[trigger] after[j]).config_key by {
            if j < before.len() {
                assert(after[i] == before[i] && after[j] == before[j]);
            } else {
                assert(!lists_key(before, known.last().key));
                assert(after[i] == before[i]);
            }
        }
    }
}

proof fn an_admissible_device_is_listed(
    list: Seq<RecordView>,
    known: Seq<KnownView>,
    present: Seq<Seq<char>>,
    at: int,
)
    requires
        0 <= at < known.len(),
        !known[at].transient,
        known[at].physical,
        !unreachable_entry(known[at].key, known[at].links, present),
    ensures
        lists_key(with_known(list, known, present), known[at].key),
    decreases known.len(),
{
    let start = known.drop_last();
    let before = with_known(list, start, present);
    let after = with_known(list, known, present);
    if at < known.len() - 1 {
        assert(start[at] == known[at]);
        an_admissible_device_is_listed(list, start, present, at);
        let i = choose|i: int|
            0 <= i < before.len() && (#[trigger] before[i]).config_key == known[at].key;
        assert(after[i] == before[i]);
    } else if admitted(before, known[at], present) {
        assert(after[before.len() as int].config_key == known[at].key);
    } else {
        assert(lists_key(before, known[at].key));
    }
}

proof fn sorted_entries_are_entries(known: Seq<KnownView>)
    ensures
        forall|entry: KnownView|
            known.contains(entry) <==> #[trigger] arranged(
                known,
                KnownDevice::sort_key(),
            ).contains(entry),
{
    broadcast use vstd::seq_lib::group_to_multiset_ensures;

    let sorted = arranged(known, KnownDevice::sort_key());
    sorting_keeps_the_items(known, KnownDevice::sort_key());
    assert forall|entry: KnownView| known.contains(entry) <==> #[trigger] sorted.contains(
        entry,
    ) by {
        assert(known.to_multiset().count(entry) == sorted.to_multiset().count(entry));
        assert(known.contains(entry) <==> known.to_multiset().count(entry) > 0);
        assert(sorted.contains(entry) <==> sorted.to_multiset().count(entry) > 0);
    }
}

/// Placeholders for known devices come behind the live records, which stay as
/// they are. Each stands for a known device that is not transient and might be
/// reached, and no two cards of one key are made: a placeholder shares its key
/// with no record in front of it.
pub proof fn placeholders_only_add(
    list: Seq<RecordView>,
    known: Seq<KnownView>,
    present: Seq<Seq<char>>,
)
    ensures
        ({
            let after = with_offline(list, known, present);
            &&& list.is_prefix_of(after)
            &&& forall|i: int|
                list.len() <= i < after.len() ==> stands_for_one_of(
                    #[trigger] after[i],
                    known,
                    present,
                )
            &&& forall|i: int, j: int|
                0 <= i < j && list.len() <= j < after.len() ==> (#[trigger] after[i]).config_key
                    != (#[trigger] after[j]).config_key
        }),
{
    let sorted = arranged(known, KnownDevice::sort_key());
    admission_keeps_what_is_listed(list, sorted, present);
    sorted_entries_are_entries(known);
    let after = with_offline(list, known, present);
    assert forall|i: int| list.len() <= i < after.len() implies stands_for_one_of(
        #[trigger] after[i],
        known,
        present,
    ) by {
        assert(stands_for_one_of(after[i], sorted, present));
        let k = choose|k: int|
            0 <= k < sorted.len() && (#[trigger] sorted[k]).placeholder() == after[i]
                && !sorted[k].transient && !unreachable_entry(
                sorted[k].key,
                sorted[k].links,
                present,
            );
        assert(sorted.contains(sorted[k]));
        let m = choose|m: int| 0 <= m < known.len() && known[m] == sorted[k];
        assert(known[m].placeholder() == after[i]);
    }
}

/// A placeholder takes no hardware writes and keeps the device's panels: it has
/// no route, is offline, and carries the persisted capabilities.
pub proof fn a_placeholder_is_passive(known: KnownView)
    ensures
        known.placeholder().route is None,
        !known.placeholder().online,
        known.placeholder().persistent_key() == Some(known.key),
        known.placeholder().capabilities == Some(known.identity.capabilities),
{
}

proof fn a_listed_record_is_shown(
    records: Seq<RecordView>,
    names: Seq<(Seq<char>, Seq<char>)>,
    at: int,
)
    requires
        0 <= at < records.len(),
    ensures
        arranged(
            records.map_values(|record: RecordView| named(record, names)),
            DeviceRecord::sort_key(),
        ).contains(named(records[at], names)),
{
    broadcast use vstd::seq_lib::group_to_multiset_ensures;

    let shown = records.map_values(|record: RecordView| named(record, names));
    let sorted = arranged(shown, DeviceRecord::sort_key());
    sorting_keeps_the_items(shown, DeviceRecord::sort_key());
    assert(shown[at] == named(records[at], names));
    assert(shown.contains(shown[at]));
    assert(shown.to_multiset().count(shown[at]) > 0);
    assert(sorted.to_multiset().count(shown[at]) > 0);
}

/// Every live device is in the list, under its alias if it has one.
pub proof fn a_live_device_is_always_listed(
    inventories: Seq<InventoryView>,
    standalone: Seq<StandaloneView>,
    demo_order: Option<Seq<char>>,
    known: Seq<KnownView>,
    cameras: Seq<CameraView>,
    names: Seq<(Seq<char>, Seq<char>)>,
    at: int,
)
    requires
        0 <= at < live_records(inventories, standalone, demo_order).len(),
    ensures
        device_list(inventories, standalone, demo_order, known, cameras, names).contains(
            named(live_records(inventories, standalone, demo_order)[at], names),
        ),
{
    let live = live_records(inventories, standalone, demo_order);
    let all = gathered(inventories, standalone, demo_order, known, cameras);
    placeholders_only_add(live, known, receivers(inventories));
    assert(all[at] == live[at]);
    a_listed_record_is_shown(all, names, at);
}

/// A known physical device is in the list whether or not it answers, unless it
/// can only be reached through receivers that are not plugged in.
pub proof fn a_known_device_is_always_listed(
    inventories: Seq<InventoryView>,
    standalone: Seq<StandaloneView>,
    demo_order: Option<Seq<char>>,
    known: Seq<KnownView>,
    cameras: Seq<CameraView>,
    names: Seq<(Seq<char>, Seq<char>)>,
    device: KnownView,
)
    requires
        known.contains(device),
        device.physical,
        !device.transient,
        !unreachable_entry(device.key, device.links, receivers(inventories)),
    ensures
        lists_key(
            device_list(inventories, standalone, demo_order, known, cameras, names),
            device.key,
        ),
{
    let live = live_records(inventories, standalone, demo_order);
    let sorted = arranged(known, KnownDevice::sort_key());
    sorted_entries_are_entries(known);
    assert(sorted.contains(device));
    let at = choose|at: int| 0 <= at < sorted.len() && sorted[at] == device;
    an_admissible_device_is_listed(live, sorted, receivers(inventories), at);
    let offline = with_offline(live, known, receivers(inventories));
    let i = choose|i: int|
        0 <= i < offline.len() && (#[trigger] offline[i]).config_key == device.key;
    let all = gathered(inventories, standalone, demo_order, known, cameras);
    assert(all[i] == offline[i]);
    a_listed_record_is_shown(all, names, i);
    let list = device_list(inventories, standalone, demo_order, known, cameras, names);
    let m = choose|m: int| 0 <= m < list.len() && list[m] == named(all[i], names);
    assert(list[m].config_key == device.key);
}

/// Where stable identity, model key and model name tell records apart, the list
/// does not depend on the order in which the devices were enumerated.
pub proof fn the_list_keeps_its_order(left: Seq<RecordView>, right: Seq<RecordView>)
    requires
        left.to_multiset() == right.to_multiset(),
        told_apart(left, DeviceRecord::sort_key()),
    ensures
        arranged(left, DeviceRecord::sort_key()) == arranged(right, DeviceRecord::sort_key()),
{
    sorting_forgets_the_order_of_arrival(left, right, DeviceRecord::sort_key());
}

} // verus!
