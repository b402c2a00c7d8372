//! One card per device, however many routes it was sighted on.

use vstd::prelude::*;
use vstd::string::*;

use crate::devices::model::{copy_asset, copy_model, copy_text, DeviceKind};
use crate::devices::record::{DeviceRecord, RecordView};
use crate::seqs::views;
use crate::text::{same_text, sorts_before, text_before, text_order_carries_on, texts_are_ordered};

verus! {

/// What a first choice and a second choice leave.
pub open spec fn either<T>(first: Option<T>, second: Option<T>) -> Option<T> {
    if first is Some {
        first
    } else {
        second
    }
}

/// A known card that takes in a live sighting of the same device: it keeps its
/// persisted identity, and the sighting supplies what changes.
pub open spec fn adopted(known: RecordView, live: RecordView, stable_order: Seq<char>)
    -> RecordView {
    RecordView {
        config_key: known.config_key,
        canonical_key: either(live.canonical_key, known.canonical_key),
        persistent: true,
        route_key: live.route_key,
        stable_order,
        model_key: known.model_key,
        model_name: known.model_name,
        display_name: known.display_name,
        asset: either(known.asset, live.asset),
        model_info: either(known.model_info, live.model_info),
        codename: either(known.codename, live.codename),
        serial_number: either(known.serial_number, live.serial_number),
        unit_id: known.unit_id,
        driver_id: either(live.driver_id, known.driver_id),
        registry_model_id: either(live.registry_model_id, known.registry_model_id),
        route: live.route,
        capture_id: either(live.capture_id, known.capture_id),
        kind: if known.kind == DeviceKind::Unknown {
            live.kind
        } else {
            known.kind
        },
        capabilities: either(live.capabilities, known.capabilities),
        light_capabilities: either(live.light_capabilities, known.light_capabilities),
        slot: live.slot,
        online: live.online,
        battery: either(live.battery, known.battery),
    }
}

fn one_of<T>(first: Option<T>, second: Option<T>) -> (chosen: Option<T>)
    ensures
        chosen == either(first, second),
{
    if first.is_some() {
        first
    } else {
        second
    }
}

/// Fold a transient live record into the known card it physically is: the card
/// keeps its persisted identity while the live record supplies volatile state.
/// `stable_order` places the stable identity that the two make together.
pub fn adopt_transient_record(known: &DeviceRecord, live: DeviceRecord, stable_order: String)
    -> (card: DeviceRecord)
    ensures
        card@ == adopted(known@, live@, stable_order@),
{
    DeviceRecord {
        config_key: known.config_key.clone(),
        canonical_key: one_of(live.canonical_key, copy_text(&known.canonical_key)),
        persistent: true,
        route_key: live.route_key,
        stable_order,
        model_key: known.model_key.clone(),
        model_name: known.model_name.clone(),
        display_name: known.display_name.clone(),
        asset: one_of(copy_asset(&known.asset), live.asset),
        model_info: one_of(copy_model(&known.model_info), live.model_info),
        codename: one_of(copy_text(&known.codename), live.codename),
        serial_number: one_of(copy_text(&known.serial_number), live.serial_number),
        unit_id: known.unit_id,
        driver_id: one_of(live.driver_id, copy_text(&known.driver_id)),
        registry_model_id: one_of(live.registry_model_id, copy_text(&known.registry_model_id)),
        route: live.route,
        capture_id: one_of(live.capture_id, copy_text(&known.capture_id)),
        kind: if known.kind == DeviceKind::Unknown {
            live.kind
        } else {
            known.kind
        },
        capabilities: one_of(live.capabilities, known.capabilities),
        light_capabilities: one_of(live.light_capabilities, known.light_capabilities),
        slot: live.slot,
        online: live.online,
        battery: one_of(live.battery, known.battery),
    }
}

/// Whether a later sighting takes the place of an earlier one of the same
/// device.
pub open spec fn takes_over(earlier: RecordView, later: RecordView) -> bool {
    later.online || !earlier.online
}

/// The record that stands for each device of a list.
pub open spec fn folded(list: Seq<RecordView>) -> Map<Seq<char>, RecordView>
    decreases list.len(),
{
    if list.len() == 0 {
        Map::empty()
    } else {
        let before = folded(list.drop_last());
        let record = list.last();
        let key = record.inventory_key();
        if before.contains_key(key) && !takes_over(before[key], record) {
            before
        } else {
            before.insert(key, record)
        }
    }
}

/// The keys of entries ascend.
pub open spec fn ascending(entries: Seq<(Seq<char>, RecordView)>) -> bool {
    forall|i: int, j: int|
        0 <= i < j < entries.len() ==> text_before((#[trigger] entries[i]).0, (
        #[trigger] entries[j]).0)
}

/// Some entry has this key.
pub open spec fn has_entry(entries: Seq<(Seq<char>, RecordView)>, key: Seq<char>) -> bool {
    exists|i: int| 0 <= i < entries.len() && (#[trigger] entries[i]).0 == key
}

/// The entries are those of the map, each once, by ascending key.
pub open spec fn lists(
    entries: Seq<(Seq<char>, RecordView)>,
    map: Map<Seq<char>, RecordView>,
) -> bool {
    &&& ascending(entries)
    &&& forall|i: int|
        0 <= i < entries.len() ==> map.contains_key((#[trigger] entries[i]).0)
            && map[entries[i].0] == entries[i].1
    &&& forall|key: Seq<char>| #[trigger] map.contains_key(key) ==> has_entry(entries, key)
}

fn entry_place(entries: &[(String, DeviceRecord)], key: &str) -> (place: usize)
    requires
        ascending(views(entries@)),
    ensures
        place <= entries@.len(),
        forall|i: int|
            0 <= i < place ==> text_before((#[trigger] views(entries@)[i]).0, key@),
        forall|i: int|
            place <= i < entries@.len() ==> !text_before((#[trigger] views(entries@)[i]).0, key@),
{
    let ghost all = views(entries@);
    let mut i: usize = 0;
    while i < entries.len()
        invariant
            i <= entries@.len(),
            all == views(entries@),
            ascending(all),
            forall|k: int| 0 <= k < i ==> text_before((#[trigger] all[k]).0, key@),
        decreases entries@.len() - i,
    {
        assert(all[i as int] == entries@[i as int]@);
        if !sorts_before(entries[i].0.as_str(), key) {
            proof {
                assert forall|k: int| i <= k < entries@.len() implies !text_before(
                    (#[trigger] all[k]).0,
                    key@,
                ) by {
                    if k > i && text_before(all[k].0, key@) {
                        assert(text_before(all[i as int].0, all[k].0));
                        text_order_carries_on(all[i as int].0, all[k].0, key@);
                    }
                }
            }
            return i;
        }
        i += 1;
    }
    i
}

proof fn an_insertion_is_listed(
    entries: Seq<(Seq<char>, RecordView)>,
    map: Map<Seq<char>, RecordView>,
    place: int,
    entry: (Seq<char>, RecordView),
)
    requires
        lists(entries, map),
        0 <= place <= entries.len(),
        forall|i: int| 0 <= i < place ==> text_before((#[trigger] entries[i]).0, entry.0),
        forall|i: int|
            place <= i < entries.len() ==> text_before(entry.0, (#[trigger] entries[i]).0),
    ensures
        lists(entries.insert(place, entry), map.insert(entry.0, entry.1)),
{
    let after = entries.insert(place, entry);
    let grown = map.insert(entry.0, entry.1);
    assert forall|i: int| 0 <= i < entries.len() implies (#[trigger] entries[i]).0 != entry.0 by {
        texts_are_ordered(entries[i].0, entry.0);
    }
    assert forall|i: int, j: int| 0 <= i < j < after.len() implies text_before(
        (#[trigger] after[i]).0,
        (#[trigger] after[j]).0,
    ) by {
        let a = if i < place {
            i
        } else {
            i - 1
        };
        let b = if j < place {
            j
        } else {
            j - 1
        };
        if i != place {
            assert(after[i] == entries[a]);
        }
        if j != place {
            assert(after[j] == entries[b]);
        }
    }
    assert forall|i: int| 0 <= i < after.len() implies grown.contains_key((#[trigger] after[i]).0)
        && grown[after[i].0] == after[i].1 by {
        if i < place {
            assert(after[i] == entries[i]);
        } else if i > place {
            assert(after[i] == entries[i - 1]);
        }
    }
    assert forall|key: Seq<char>| #[trigger] grown.contains_key(key) implies has_entry(
        after,
        key,
    ) by {
        if key == entry.0 {
            assert(after[place].0 == key);
        } else {
            assert(map.contains_key(key));
            let i = choose|i: int| 0 <= i < entries.len() && (#[trigger] entries[i]).0 == key;
            if i < place {
                assert(after[i].0 == key);
            } else {
                assert(after[i + 1].0 == key);
            }
        }
    }
}

proof fn a_replacement_is_listed(
    entries: Seq<(Seq<char>, RecordView)>,
    map: Map<Seq<char>, RecordView>,
    place: int,
    record: RecordView,
)
    requires
        lists(entries, map),
        0 <= place < entries.len(),
    ensures
        lists(
            entries.update(place, (entries[place].0, record)),
            map.insert(entries[place].0, record),
        ),
{
    let key = entries[place].0;
    let after = entries.update(place, (key, record));
    let grown = map.insert(key, record);
    assert forall|i: int, j: int| 0 <= i < j < after.len() implies text_before(
        (#[trigger] after[i]).0,
        (#[trigger] after[j]).0,
    ) by {
        assert(text_before(entries[i].0, entries[j].0));
    }
    assert forall|i: int| 0 <= i < after.len() implies grown.contains_key((#[trigger] after[i]).0)
        && grown[after[i].0] == after[i].1 by {
        if i < place {
            assert(text_before(entries[i].0, entries[place].0));
            texts_are_ordered(entries[i].0, key);
        } else if i > place {
            assert(text_before(entries[place].0, entries[i].0));
            texts_are_ordered(entries[i].0, key);
        }
        assert(map.contains_key(entries[i].0));
    }
    assert forall|other: Seq<char>| #[trigger] grown.contains_key(other) implies has_entry(
        after,
        other,
    ) by {
        if other == key {
            assert(after[place].0 == other);
        } else {
            assert(map.contains_key(other));
            let i = choose|i: int| 0 <= i < entries.len() && (#[trigger] entries[i]).0 == other;
            assert(after[i].0 == other);
        }
    }
}

/// Collapse records that resolve the same inventory key into one, which is how a
/// device sighted on two routes in the same snapshot becomes a single card.
///
/// An online record always wins: the surviving record carries the route that
/// every write goes to. Between two records of equal liveness the later one
/// wins.
pub fn fold_by_inventory_key(list: Vec<DeviceRecord>) -> (by_key: Vec<(String, DeviceRecord)>)
    ensures
        lists(views(by_key@), folded(views(list@))),
{
    let ghost all = views(list@);
    let mut list = list;
    let mut by_key: Vec<(String, DeviceRecord)> = Vec::new();
    let ghost mut done: int = 0;
    proof {
        assert(all.take(0) =~= Seq::<RecordView>::empty());
        assert(views(list@) =~= all.skip(0));
    }
    while list.len() > 0
        invariant
            0 <= done <= all.len(),
            views(list@) == all.skip(done),
            lists(views(by_key@), folded(all.take(done))),
        decreases list@.len(),
    {
        let ghost waiting = views(list@);
        let ghost entries = views(by_key@);
        let ghost map = folded(all.take(done));
        assert(waiting.len() == list@.len());
        assert(waiting[0] == all[done]);
        let record = list.remove(0);
        proof {
            assert(record@ == waiting[0]);
            assert(views(list@) =~= waiting.remove(0));
            assert(views(list@) =~= all.skip(done + 1));
            assert(all.take(done + 1).drop_last() =~= all.take(done));
        }
        let key = record.inventory_key();
        let place = entry_place(by_key.as_slice(), key.as_str());
        let taken = place < by_key.len() && same_text(by_key[place].0.as_str(), key.as_str());
        if taken {
            assert(entries[place as int] == by_key@[place as int]@);
            assert(map[key@] == entries[place as int].1);
            if record.online || !by_key[place].1.online {
                proof {
                    a_replacement_is_listed(entries, map, place as int, record@);
                }
                let ghost seen = record@;
                by_key.set(place, (key, record));
                assert(views(by_key@) =~= entries.update(place as int, (key@, seen)));
            }
        } else {
            proof {
                assert forall|i: int| place <= i < entries.len() implies text_before(
                    key@,
                    (#[trigger] entries[i]).0,
                ) by {
                    texts_are_ordered(key@, entries[i].0);
                    if entries[i].0 == key@ && i > place {
                        assert(text_before(entries[place as int].0, entries[i].0));
                    }
                    assert(entries[place as int] == by_key@[place as int]@);
                }
                if map.contains_key(key@) {
                    let i = choose|i: int|
                        0 <= i < entries.len() && (#[trigger] entries[i]).0 == key@;
                    texts_are_ordered(key@, entries[i].0);
                    assert(text_before(entries[i].0, key@) || text_before(key@, entries[i].0));
                }
                an_insertion_is_listed(entries, map, place as int, (key@, record@));
            }
            let ghost seen = record@;
            let ghost name = key@;
            by_key.insert(place, (key, record));
            assert(views(by_key@) =~= entries.insert(place as int, (name, seen)));
        }
        proof {
            done = done + 1;
        }
    }
    assert(all.take(done) =~= all);
    by_key
}

/// The record at `i` is the one that survives among those with its key: every
/// later one is offline while it is online.
pub open spec fn survives(list: Seq<RecordView>, i: int) -> bool {
    forall|j: int|
        i < j < list.len() && (#[trigger] list[j]).inventory_key() == list[i].inventory_key()
            ==> !takes_over(list[i], list[j])
}

/// Every device of a list keeps exactly one record, which is one of its own. If
/// any of its records is online, so is the one that is kept; and no later record
/// of the same liveness was passed over.
pub proof fn an_online_record_wins(list: Seq<RecordView>, key: Seq<char>)
    ensures
        folded(list).contains_key(key) <==> exists|i: int|
            0 <= i < list.len() && (#[trigger] list[i]).inventory_key() == key,
        folded(list).contains_key(key) ==> {
            &&& exists|i: int|
                0 <= i < list.len() && #[trigger] list[i] == folded(list)[key]
                    && list[i].inventory_key() == key && survives(list, i)
            &&& forall|j: int|
                0 <= j < list.len() && (#[trigger] list[j]).inventory_key() == key
                    && list[j].online ==> folded(list)[key].online
        },
    decreases list.len(),
{
    if list.len() > 0 {
        let start = list.drop_last();
        let n = list.len() - 1;
        an_online_record_wins(start, key);
        let before = folded(start);
        let after = folded(list);
        if before.contains_key(key) {
            let i = choose|i: int|
                0 <= i < start.len() && #[trigger] start[i] == before[key]
                    && start[i].inventory_key() == key && survives(start, i);
            assert(list[i] == start[i]);
            assert forall|j: int| 0 <= j < n && (#[trigger] list[j]).inventory_key() == key
                && list[j].online implies before[key].online by {
                assert(start[j] == list[j]);
            }
            if list[n].inventory_key() != key || !takes_over(before[key], list[n]) {
                assert(after[key] == before[key]);
                assert forall|j: int|
                    i < j < list.len() && (#[trigger] list[j]).inventory_key()
                        == list[i].inventory_key() implies !takes_over(list[i], list[j]) by {
                    if j < n {
                        assert(start[j] == list[j]);
                    }
                }
                assert(survives(list, i));
            } else {
                assert(after[key] == list[n]);
                assert(survives(list, n));
            }
        } else {
            assert forall|j: int| 0 <= j < n implies (#[trigger] list[j]).inventory_key()
                != key by {
                assert(start[j] == list[j]);
            }
            if list[n].inventory_key() == key {
                assert(after[key] == list[n]);
                assert(survives(list, n));
            }
        }
    }
}

/// The records of entries, without their keys.
pub open spec fn records(entries: Seq<(Seq<char>, RecordView)>) -> Seq<RecordView> {
    entries.map_values(|entry: (Seq<char>, RecordView)| entry.1)
}

/// A map is listed in one way only.
pub proof fn a_listing_is_unique(
    left: Seq<(Seq<char>, RecordView)>,
    right: Seq<(Seq<char>, RecordView)>,
    map: Map<Seq<char>, RecordView>,
)
    requires
        lists(left, map),
        lists(right, map),
    ensures
        left == right,
{
    let shorter = if left.len() <= right.len() {
        left.len()
    } else {
        right.len()
    };
    listings_agree(left, right, map, shorter as int);
    if left.len() <= right.len() {
        no_entry_is_left_over(left, right, map);
    } else {
        assert forall|k: int| 0 <= k < shorter implies #[trigger] right[k] == left[k] by {
            assert(left[k] == right[k]);
        }
        no_entry_is_left_over(right, left, map);
    }
    assert(left =~= right);
}

proof fn no_entry_is_left_over(
    left: Seq<(Seq<char>, RecordView)>,
    right: Seq<(Seq<char>, RecordView)>,
    map: Map<Seq<char>, RecordView>,
)
    requires
        lists(left, map),
        lists(right, map),
        left.len() <= right.len(),
        forall|k: int| 0 <= k < left.len() ==> #[trigger] left[k] == right[k],
    ensures
        left.len() == right.len(),
{
    let n = left.len() as int;
    if n < right.len() {
        assert(map.contains_key(right[n].0));
        let i = choose|i: int| 0 <= i < left.len() && (#[trigger] left[i]).0 == right[n].0;
        assert(left[i] == right[i]);
        assert(text_before(right[i].0, right[n].0));
        texts_are_ordered(right[i].0, right[n].0);
    }
}

proof fn listings_agree(
    left: Seq<(Seq<char>, RecordView)>,
    right: Seq<(Seq<char>, RecordView)>,
    map: Map<Seq<char>, RecordView>,
    n: int,
)
    requires
        lists(left, map),
        lists(right, map),
        0 <= n <= left.len(),
        n <= right.len(),
    ensures
        forall|k: int| 0 <= k < n ==> #[trigger] left[k] == right[k],
    decreases n,
{
    if n > 0 {
        listings_agree(left, right, map, n - 1);
        let last = n - 1;
        assert(map.contains_key(left[last].0));
        assert(map.contains_key(right[last].0));
        let j = choose|j: int| 0 <= j < right.len() && (#[trigger] right[j]).0 == left[last].0;
        let i = choose|i: int| 0 <= i < left.len() && (#[trigger] left[i]).0 == right[last].0;
        texts_are_ordered(left[last].0, right[last].0);
        if j < last {
            assert(left[j] == right[j]);
            assert(text_before(left[j].0, left[last].0));
            texts_are_ordered(left[j].0, left[last].0);
        } else if i < last {
            assert(left[i] == right[i]);
            assert(text_before(right[i].0, right[last].0));
            texts_are_ordered(right[i].0, right[last].0);
        } else if j > last && i > last {
            assert(text_before(right[last].0, right[j].0));
            assert(text_before(left[last].0, left[i].0));
        }
        assert(left[last].0 == right[last].0);
        assert(left[last] == right[last]);
    }
}

/// Folding again changes nothing: the records that a fold leaves, folded once
/// more, make the same map and are listed in the same way.
pub proof fn folding_again_changes_nothing(
    list: Seq<RecordView>,
    entries: Seq<(Seq<char>, RecordView)>,
    again: Seq<(Seq<char>, RecordView)>,
)
    requires
        lists(entries, folded(list)),
        lists(again, folded(records(entries))),
    ensures
        folded(records(entries)) == folded(list),
        again == entries,
{
    let once = folded(list);
    let kept = records(entries);
    let twice = folded(kept);
    assert forall|i: int| 0 <= i < entries.len() implies (#[trigger] kept[i]).inventory_key()
        == entries[i].0 by {
        assert(once.contains_key(entries[i].0));
        an_online_record_wins(list, entries[i].0);
    }
    assert forall|key: Seq<char>| once.contains_key(key) == #[trigger] twice.contains_key(key) && (
    once.contains_key(key) ==> once[key] == twice[key]) by {
        an_online_record_wins(kept, key);
        if once.contains_key(key) {
            let i = choose|i: int| 0 <= i < entries.len() && (#[trigger] entries[i]).0 == key;
            assert(kept[i].inventory_key() == key);
            let j = choose|j: int|
                0 <= j < kept.len() && #[trigger] kept[j] == twice[key]
                    && kept[j].inventory_key() == key && survives(kept, j);
            assert(entries[j].0 == key);
            texts_are_ordered(entries[i].0, entries[j].0);
            if i < j {
                assert(text_before(entries[i].0, entries[j].0));
            } else if j < i {
                assert(text_before(entries[j].0, entries[i].0));
            }
        } else if twice.contains_key(key) {
            let i = choose|i: int|
                0 <= i < kept.len() && (#[trigger] kept[i]).inventory_key() == key;
            assert(once.contains_key(entries[i].0));
        }
    }
    assert(twice =~= once);
    a_listing_is_unique(again, entries, once);
}

/// Folding a live sighting into a known card never changes which device the card
/// is for.
pub proof fn adoption_keeps_the_identity(
    known: RecordView,
    live: RecordView,
    stable_order: Seq<char>,
)
    ensures
        ({
            let card = adopted(known, live, stable_order);
            &&& card.config_key == known.config_key
            &&& card.persistent_key() == Some(known.config_key)
            &&& card.unit_id == known.unit_id
            &&& card.model_key == known.model_key
            &&& card.display_name == known.display_name
            &&& card.route == live.route
            &&& card.online == live.online
        }),
{
}

} // verus!
