//! What the device list shows of each device, told field by field.

use vstd::prelude::*;
use vstd::string::*;

use crate::devices::codename::{is_blank, pretty};
use crate::devices::list::{
    alias, camera_records, demo_records, device_list, gathered, inventory_records, live_records,
    named, paired_records, receivers, InventoryView,
};
use crate::devices::list_laws::{placeholders_only_add, stands_for_one_of};
use crate::devices::model::{legacy_model, DeviceKind};
use crate::devices::offline::{
    unreachable_entry, with_known, with_offline, KnownDevice, KnownView,
};
use crate::devices::record::{DeviceRecord, RecordView};
use crate::devices::sighting::{
    standalone_records, CameraView, KeysView, PairedView, StandaloneView,
};
use crate::sorting::{arranged, sorting_keeps_the_items, sorting_puts_in_order, Sortable};
use crate::text::{decimal, hex4, lower_text};

verus! {

/// The record goes by these keys: by the persistent one where there is one, and
/// by the runtime one otherwise, and only the former may be persisted.
pub open spec fn goes_by(record: RecordView, keys: KeysView) -> bool {
    &&& record.config_key == (if keys.persistent_key is Some {
        keys.persistent_key->Some_0
    } else {
        keys.runtime_key
    })
    &&& record.persistent == (keys.persistent_key is Some)
    &&& record.canonical_key == keys.canonical_key
    &&& record.route_key == keys.route_key
    &&& record.stable_order == keys.stable_order
}

/// The record is live as the paired device is: it has the device's own route,
/// slot, state, battery and capabilities.
pub open spec fn is_live_as(record: RecordView, paired: PairedView) -> bool {
    &&& record.route == paired.route
    &&& record.slot == paired.slot
    &&& record.online == paired.online
    &&& record.battery == paired.battery
    &&& record.capabilities == paired.capabilities
    &&& record.codename == paired.codename
    &&& record.capture_id is None
    &&& record.driver_id is None
    &&& record.registry_model_id is None
    &&& record.light_capabilities is None
}

/// The record tells of the model what the paired device said of it, and carries
/// the artwork and the key that were looked up for it. Without a model it goes by
/// the wireless product id, or by the slot.
pub open spec fn is_modelled_as(record: RecordView, paired: PairedView) -> bool {
    match paired.model {
        Some(model) => {
            &&& record.model_info == Some(model.info)
            &&& record.serial_number == model.info.serial_number
            &&& record.unit_id == model.info.unit_id
            &&& record.asset == model.lookup.asset
            &&& record.model_key == model.lookup.config_key
        },
        None => {
            &&& record.model_info is None
            &&& record.serial_number is None
            &&& record.unit_id == seq![0u8, 0u8, 0u8, 0u8]
            &&& record.asset is None
            &&& record.model_key == (match paired.wpid {
                Some(wpid) => "wpid"@ + hex4(wpid as nat),
                None => "slot"@ + decimal(paired.slot as nat),
            })
        },
    }
}

/// The record has the name of the artwork, or else the tidied codename, or else
/// that of the slot; and the kind that the artwork gives, or else the device's.
pub open spec fn is_named_as(record: RecordView, paired: PairedView) -> bool {
    let art = match paired.model {
        Some(model) => model.lookup.asset,
        None => None,
    };
    &&& record.model_name == (match (art, paired.codename) {
        (Some(asset), _) => asset.display_name,
        (None, Some(codename)) => pretty(codename),
        (None, None) => paired.slot_name,
    })
    &&& record.kind == (if art is Some && art->Some_0.kind is Some {
        art->Some_0.kind->Some_0
    } else {
        paired.kind
    })
}

/// The record is the card of the paired device.
pub open spec fn shows_paired(record: RecordView, paired: PairedView) -> bool {
    &&& goes_by(record, paired.keys)
    &&& is_live_as(record, paired)
    &&& is_modelled_as(record, paired)
    &&& is_named_as(record, paired)
}

/// The record of a paired device shows it field by field, under the name of its
/// model.
pub proof fn a_paired_record_shows_its_device(paired: PairedView)
    ensures
        shows_paired(paired.record(), paired),
        paired.record().display_name == paired.record().model_name,
{
}

/// The record is the card of the standalone device: its address is its route, and
/// its registry identity selects artwork and no key.
pub open spec fn shows_standalone(record: RecordView, device: StandaloneView) -> bool {
    let art = if device.registry_model_id is Some {
        device.registry_asset
    } else {
        None
    };
    &&& goes_by(record, device.keys)
    &&& record.route == Some(device.route)
    &&& record.slot == 0xff
    &&& record.online == device.online
    &&& record.battery is None
    &&& record.capabilities == device.capabilities
    &&& record.light_capabilities == device.light_capabilities
    &&& record.serial_number == device.serial_number
    &&& record.unit_id == device.unit_id
    &&& record.driver_id == Some(device.driver_id)
    &&& record.registry_model_id == device.registry_model_id
    &&& record.kind == device.kind
    &&& record.model_key == "raw:"@ + hex4(device.product_id as nat)
    &&& record.asset == art
    &&& record.model_name == (if art is Some && !is_blank(art->Some_0.display_name) {
        art->Some_0.display_name
    } else {
        device.display_name
    })
    &&& record.model_info is None
    &&& record.codename is None
    &&& record.capture_id is None
}

/// The record of a standalone device shows it field by field, under the name of
/// its model.
pub proof fn a_standalone_record_shows_its_device(device: StandaloneView)
    ensures
        shows_standalone(device.record(), device),
        device.record().display_name == device.record().model_name,
{
}

/// The record is the card of the webcam: it is opened by its unique id, and has no
/// route by which anything could be written to it.
pub open spec fn shows_camera(record: RecordView, camera: CameraView) -> bool {
    &&& record.config_key == camera.config_key
    &&& record.route_key == camera.config_key
    &&& record.canonical_key is None
    &&& record.persistent
    &&& record.stable_order == camera.stable_order
    &&& record.model_key == hex4(camera.product_id as nat)
    &&& record.model_name == camera.name
    &&& record.asset == camera.asset
    &&& record.serial_number == camera.serial_number
    &&& record.unit_id == seq![0u8, 0u8, 0u8, 0u8]
    &&& record.capture_id == Some(camera.unique_id)
    &&& record.kind == DeviceKind::Camera
    &&& record.online
    &&& record.route is None
    &&& record.capabilities is None
    &&& record.light_capabilities is None
    &&& record.battery is None
    &&& record.model_info is None
    &&& record.codename is None
    &&& record.driver_id is None
    &&& record.registry_model_id is None
    &&& record.slot == 0
}

/// The record of a webcam shows it field by field, under its name.
pub proof fn a_camera_record_shows_its_camera(camera: CameraView)
    ensures
        shows_camera(camera.record(), camera),
        camera.record().display_name == camera.name,
{
}

/// The record is the card of the known device while it is away: it goes by the
/// persisted key, keeps what is persisted, and takes no hardware writes.
pub open spec fn shows_known(record: RecordView, known: KnownView) -> bool {
    let art = if known.identity.registry_model_id is Some && known.registry_asset is Some {
        known.registry_asset
    } else if record.model_info is Some && known.model is Some {
        known.model->Some_0.asset
    } else {
        None
    };
    &&& record.config_key == known.key
    &&& record.route_key == known.key
    &&& record.canonical_key is None
    &&& record.persistent
    &&& record.stable_order == known.stable_order
    &&& known.identity.model_info is Some ==> record.model_info == known.identity.model_info
    &&& record.model_key == (if record.model_info is Some && known.model is Some {
        known.model->Some_0.config_key
    } else {
        known.key
    })
    &&& record.asset == art
    &&& record.model_name == (if art is Some && !is_blank(art->Some_0.display_name) {
        art->Some_0.display_name
    } else {
        known.identity.display_name
    })
    &&& record.codename == known.identity.codename
    &&& record.driver_id == known.identity.driver_id
    &&& record.registry_model_id == known.identity.registry_model_id
    &&& record.kind == known.identity.kind
    &&& record.capabilities == Some(known.identity.capabilities)
    &&& record.light_capabilities == known.identity.light_capabilities
    &&& record.serial_number is None
    &&& record.unit_id == seq![0u8, 0u8, 0u8, 0u8]
    &&& record.route is None
    &&& record.capture_id is None
    &&& record.slot == 0
    &&& !record.online
    &&& record.battery is None
}

/// The placeholder of a known device shows it field by field, under the name of
/// its model.
pub proof fn a_placeholder_shows_its_device(known: KnownView)
    ensures
        shows_known(known.placeholder(), known),
        known.placeholder().display_name == known.placeholder().model_name,
        known.identity.model_info is None ==> known.placeholder().model_info
            == legacy_model(known.key),
{
}

/// The alias of a key is that of its first entry, and there is none without one.
pub proof fn the_first_alias_counts(
    names: Seq<(Seq<char>, Seq<char>)>,
    key: Seq<char>,
    at: int,
)
    requires
        0 <= at <= names.len(),
        forall|k: int| 0 <= k < at ==> (#[trigger] names[k]).0 != key,
        at < names.len() ==> names[at].0 == key,
    ensures
        alias(names, key) == if at < names.len() {
            Some(names[at].1)
        } else {
            None
        },
    decreases names.len(),
{
    if at > 0 {
        assert(names[0].0 != key);
        let rest = names.skip(1);
        assert forall|k: int| 0 <= k < at - 1 implies (#[trigger] rest[k]).0 != key by {
            assert(rest[k] == names[k + 1]);
        }
        the_first_alias_counts(rest, key, at - 1);
    }
}

/// Two records are alike in everything but the name they are shown under.
pub open spec fn alike_but_for_the_name(left: RecordView, right: RecordView) -> bool {
    left == RecordView { display_name: left.display_name, ..right }
}

/// An alias changes the name that a record is shown under and nothing else. Only
/// records that may be persisted have one, under the key of their user-facing
/// state.
pub proof fn an_alias_changes_the_shown_name_only(
    record: RecordView,
    names: Seq<(Seq<char>, Seq<char>)>,
)
    ensures
        alike_but_for_the_name(named(record, names), record),
        named(record, names).display_name == (if record.persistent && alias(
            names,
            record.record_key(),
        ) is Some {
            alias(names, record.record_key())->Some_0
        } else {
            record.display_name
        }),
{
}

/// The record is shown under its alias, or else under the name of its model.
pub open spec fn is_shown_under(record: RecordView, names: Seq<(Seq<char>, Seq<char>)>) -> bool {
    record.display_name == (if record.persistent && alias(names, record.record_key()) is Some {
        alias(names, record.record_key())->Some_0
    } else {
        record.model_name
    })
}

proof fn a_gathered_record_is_listed(
    inventories: Seq<InventoryView>,
    standalone: Seq<StandaloneView>,
    demo_order: Option<Seq<char>>,
    known: Seq<KnownView>,
    cameras: Seq<CameraView>,
    names: Seq<(Seq<char>, Seq<char>)>,
    at: int,
) -> (i: int)
    requires
        0 <= at < gathered(inventories, standalone, demo_order, known, cameras).len(),
    ensures
        ({
            let list = device_list(inventories, standalone, demo_order, known, cameras, names);
            let record = gathered(inventories, standalone, demo_order, known, cameras)[at];
            0 <= i < list.len() && list[i] == named(record, names)
        }),
{
    broadcast use vstd::seq_lib::group_to_multiset_ensures;

    let records = gathered(inventories, standalone, demo_order, known, cameras);
    let shown = records.map_values(|record: RecordView| named(record, names));
    let list = arranged(shown, DeviceRecord::sort_key());
    sorting_keeps_the_items(shown, DeviceRecord::sort_key());
    assert(shown[at] == named(records[at], names));
    assert(shown.contains(shown[at]));
    assert(shown.to_multiset().count(shown[at]) > 0);
    assert(list.to_multiset().count(shown[at]) > 0);
    assert(list.contains(shown[at]));
    choose|i: int| 0 <= i < list.len() && list[i] == shown[at]
}

proof fn a_reported_device_is_in_the_inventories(
    inventories: Seq<InventoryView>,
    i: int,
    j: int,
) -> (at: int)
    requires
        0 <= i < inventories.len(),
        0 <= j < inventories[i].paired.len(),
    ensures
        0 <= at < inventory_records(inventories).len(),
        inventory_records(inventories)[at] == inventories[i].paired[j].record(),
    decreases inventories.len(),
{
    let start = inventories.drop_last();
    let before = inventory_records(start);
    let all = inventory_records(inventories);
    if i < inventories.len() - 1 {
        assert(start[i] == inventories[i]);
        let at = a_reported_device_is_in_the_inventories(start, i, j);
        assert(all[at] == before[at]);
        at
    } else {
        let at = before.len() + j;
        assert(all[at] == paired_records(inventories[i].paired)[j]);
        at
    }
}

/// Every device that an inventory reports is in the list, with its own keys,
/// route, slot, state, battery, capabilities, model and kind, whatever else is
/// listed and whatever name it is shown under.
pub proof fn every_reported_device_is_shown_as_it_is(
    inventories: Seq<InventoryView>,
    standalone: Seq<StandaloneView>,
    demo_order: Option<Seq<char>>,
    known: Seq<KnownView>,
    cameras: Seq<CameraView>,
    names: Seq<(Seq<char>, Seq<char>)>,
    i: int,
    j: int,
)
    requires
        0 <= i < inventories.len(),
        0 <= j < inventories[i].paired.len(),
    ensures
        exists|n: int|
            0 <= n < device_list(inventories, standalone, demo_order, known, cameras, names).len()
                && shows_paired(
                #[trigger] device_list(
                    inventories,
                    standalone,
                    demo_order,
                    known,
                    cameras,
                    names,
                )[n],
                inventories[i].paired[j],
            ),
{
    let at = a_reported_device_is_in_the_inventories(inventories, i, j);
    let live = live_records(inventories, standalone, demo_order);
    let all = gathered(inventories, standalone, demo_order, known, cameras);
    placeholders_only_add(live, known, receivers(inventories));
    assert(live[at] == inventory_records(inventories)[at]);
    assert(all[at] == live[at]);
    let n = a_gathered_record_is_listed(
        inventories,
        standalone,
        demo_order,
        known,
        cameras,
        names,
        at,
    );
    let list = device_list(inventories, standalone, demo_order, known, cameras, names);
    a_paired_record_shows_its_device(inventories[i].paired[j]);
    an_alias_changes_the_shown_name_only(all[at], names);
    assert(shows_paired(list[n], inventories[i].paired[j]));
}

/// Every standalone device is in the list as it is, whatever name it is shown
/// under.
pub proof fn every_standalone_device_is_shown_as_it_is(
    inventories: Seq<InventoryView>,
    standalone: Seq<StandaloneView>,
    demo_order: Option<Seq<char>>,
    known: Seq<KnownView>,
    cameras: Seq<CameraView>,
    names: Seq<(Seq<char>, Seq<char>)>,
    i: int,
)
    requires
        0 <= i < standalone.len(),
    ensures
        exists|n: int|
            0 <= n < device_list(inventories, standalone, demo_order, known, cameras, names).len()
                && shows_standalone(
                #[trigger] device_list(
                    inventories,
                    standalone,
                    demo_order,
                    known,
                    cameras,
                    names,
                )[n],
                standalone[i],
            ),
{
    let at = inventory_records(inventories).len() + i;
    let live = live_records(inventories, standalone, demo_order);
    let all = gathered(inventories, standalone, demo_order, known, cameras);
    placeholders_only_add(live, known, receivers(inventories));
    assert(live[at] == standalone_records(standalone)[i]);
    assert(all[at] == live[at]);
    let n = a_gathered_record_is_listed(
        inventories,
        standalone,
        demo_order,
        known,
        cameras,
        names,
        at,
    );
    let list = device_list(inventories, standalone, demo_order, known, cameras, names);
    a_standalone_record_shows_its_device(standalone[i]);
    an_alias_changes_the_shown_name_only(all[at], names);
    assert(shows_standalone(list[n], standalone[i]));
}

/// Every webcam is in the list as it is, whatever name it is shown under.
pub proof fn every_camera_is_shown_as_it_is(
    inventories: Seq<InventoryView>,
    standalone: Seq<StandaloneView>,
    demo_order: Option<Seq<char>>,
    known: Seq<KnownView>,
    cameras: Seq<CameraView>,
    names: Seq<(Seq<char>, Seq<char>)>,
    i: int,
)
    requires
        0 <= i < cameras.len(),
    ensures
        exists|n: int|
            0 <= n < device_list(inventories, standalone, demo_order, known, cameras, names).len()
                && shows_camera(
                #[trigger] device_list(
                    inventories,
                    standalone,
                    demo_order,
                    known,
                    cameras,
                    names,
                )[n],
                cameras[i],
            ),
{
    let live = live_records(inventories, standalone, demo_order);
    let offline = with_offline(live, known, receivers(inventories));
    let all = gathered(inventories, standalone, demo_order, known, cameras);
    let at = offline.len() + i;
    assert(all[at] == camera_records(cameras)[i]);
    let n = a_gathered_record_is_listed(
        inventories,
        standalone,
        demo_order,
        known,
        cameras,
        names,
        at,
    );
    let list = device_list(inventories, standalone, demo_order, known, cameras, names);
    a_camera_record_shows_its_camera(cameras[i]);
    an_alias_changes_the_shown_name_only(all[at], names);
    assert(shows_camera(list[n], cameras[i]));
}

/// The record is that of the synthetic keyboard: it can be lit, and takes no
/// hardware writes.
pub open spec fn shows_demo(record: RecordView, order: Seq<char>) -> bool {
    &&& record.config_key == "demo-g513"@
    &&& record.route_key == "demo-g513"@
    &&& record.model_key == "demo-g513"@
    &&& record.model_name == "Logitech G513"@
    &&& record.stable_order == order
    &&& record.persistent
    &&& record.online
    &&& record.kind == DeviceKind::Keyboard
    &&& (record.capabilities matches Some(capabilities) && capabilities.lighting)
    &&& record.route is None
    &&& record.capture_id is None
}

/// No device that an inventory reports or that is attached goes by this key.
pub open spec fn is_away(
    key: Seq<char>,
    inventories: Seq<InventoryView>,
    standalone: Seq<StandaloneView>,
) -> bool {
    &&& forall|i: int, j: int|
        0 <= i < inventories.len() && 0 <= j < inventories[i].paired.len() ==> (
        #[trigger] inventories[i].paired[j]).keys.config_key() != key
    &&& forall|i: int|
        0 <= i < standalone.len() ==> (#[trigger] standalone[i]).keys.config_key() != key
}

/// The record is that of something that was reported, attached, seen before or
/// asked for. Of the devices seen before, those are listed that are away, might be
/// reached, and are not transient.
pub open spec fn has_a_source(
    record: RecordView,
    inventories: Seq<InventoryView>,
    standalone: Seq<StandaloneView>,
    demo_order: Option<Seq<char>>,
    known: Seq<KnownView>,
    cameras: Seq<CameraView>,
) -> bool {
    ||| exists|i: int, j: int|
        0 <= i < inventories.len() && 0 <= j < inventories[i].paired.len() && shows_paired(
            record,
            #[trigger] inventories[i].paired[j],
        )
    ||| exists|i: int|
        0 <= i < standalone.len() && shows_standalone(record, #[trigger] standalone[i])
    ||| (demo_order matches Some(order) && shows_demo(record, order))
    ||| exists|i: int|
        0 <= i < known.len() && shows_known(record, #[trigger] known[i]) && !known[i].transient
            && !unreachable_entry(known[i].key, known[i].links, receivers(inventories)) && is_away(
            known[i].key,
            inventories,
            standalone,
        )
    ||| exists|i: int| 0 <= i < cameras.len() && shows_camera(record, #[trigger] cameras[i])
}

proof fn an_inventory_record_was_reported(inventories: Seq<InventoryView>, at: int) -> (found: (
    int,
    int,
))
    requires
        0 <= at < inventory_records(inventories).len(),
    ensures
        0 <= found.0 < inventories.len(),
        0 <= found.1 < inventories[found.0].paired.len(),
        inventory_records(inventories)[at] == inventories[found.0].paired[found.1].record(),
    decreases inventories.len(),
{
    let start = inventories.drop_last();
    let before = inventory_records(start);
    let last = inventories.len() - 1;
    if at < before.len() {
        let found = an_inventory_record_was_reported(start, at);
        assert(start[found.0] == inventories[found.0]);
        found
    } else {
        let j = at - before.len();
        assert(inventory_records(inventories)[at] == paired_records(inventories[last].paired)[j]);
        (last, j)
    }
}

/// Nothing is in the list but the cards of devices that were reported, attached,
/// seen before or asked for; each shows its device as it is, under its alias or
/// else the name of its model.
pub proof fn every_card_has_its_device(
    inventories: Seq<InventoryView>,
    standalone: Seq<StandaloneView>,
    demo_order: Option<Seq<char>>,
    known: Seq<KnownView>,
    cameras: Seq<CameraView>,
    names: Seq<(Seq<char>, Seq<char>)>,
    n: int,
)
    requires
        0 <= n < device_list(inventories, standalone, demo_order, known, cameras, names).len(),
    ensures
        has_a_source(
            device_list(inventories, standalone, demo_order, known, cameras, names)[n],
            inventories,
            standalone,
            demo_order,
            known,
            cameras,
        ),
        is_shown_under(
            device_list(inventories, standalone, demo_order, known, cameras, names)[n],
            names,
        ),
{
    broadcast use vstd::seq_lib::group_to_multiset_ensures;

    let live = live_records(inventories, standalone, demo_order);
    let offline = with_offline(live, known, receivers(inventories));
    let all = gathered(inventories, standalone, demo_order, known, cameras);
    let shown = all.map_values(|record: RecordView| named(record, names));
    let list = arranged(shown, DeviceRecord::sort_key());
    let record = list[n];
    sorting_keeps_the_items(shown, DeviceRecord::sort_key());
    assert(list.contains(record));
    assert(list.to_multiset().count(record) > 0);
    assert(shown.to_multiset().count(record) > 0);
    assert(shown.contains(record));
    let at = choose|at: int| 0 <= at < shown.len() && shown[at] == record;
    assert(record == named(all[at], names));
    an_alias_changes_the_shown_name_only(all[at], names);
    placeholders_only_add(live, known, receivers(inventories));
    let seen = inventory_records(inventories);
    let attached = standalone_records(standalone);
    if at < live.len() {
        assert(offline[at] == live[at]);
        assert(all[at] == live[at]);
    }
    if at < seen.len() {
        assert(live[at] == seen[at]);
        let (i, j) = an_inventory_record_was_reported(inventories, at);
        a_paired_record_shows_its_device(inventories[i].paired[j]);
        assert(shows_paired(record, inventories[i].paired[j]));
    } else if at < seen.len() + attached.len() {
        let i = at - seen.len();
        assert(live[at] == attached[i]);
        a_standalone_record_shows_its_device(standalone[i]);
        assert(shows_standalone(record, standalone[i]));
    } else if at < live.len() {
        assert(live[at] == demo_records(demo_order)[0]);
        assert(shows_demo(record, demo_order->Some_0));
    } else if at < offline.len() {
        assert(all[at] == offline[at]);
        assert(stands_for_one_of(offline[at], known, receivers(inventories)));
        let i = choose|i: int|
            0 <= i < known.len() && (#[trigger] known[i]).placeholder() == offline[at]
                && !known[i].transient && !unreachable_entry(
                known[i].key,
                known[i].links,
                receivers(inventories),
            );
        a_placeholder_shows_its_device(known[i]);
        assert(shows_known(record, known[i]));
        assert(is_away(known[i].key, inventories, standalone)) by {
            assert forall|a: int, b: int|
                0 <= a < inventories.len() && 0 <= b < inventories[a].paired.len() implies (
            #[trigger] inventories[a].paired[b]).keys.config_key() != known[i].key by {
                let k = a_reported_device_is_in_the_inventories(inventories, a, b);
                assert(live[k] == seen[k]);
                assert(offline[k] == live[k]);
                assert(offline[k].config_key != offline[at].config_key);
            }
            assert forall|a: int| 0 <= a < standalone.len() implies (
            #[trigger] standalone[a]).keys.config_key() != known[i].key by {
                let k = seen.len() + a;
                assert(live[k] == attached[a]);
                assert(offline[k] == live[k]);
                assert(offline[k].config_key != offline[at].config_key);
            }
        }
    } else {
        let i = at - offline.len();
        assert(all[at] == camera_records(cameras)[i]);
        a_camera_record_shows_its_camera(cameras[i]);
        assert(shows_camera(record, cameras[i]));
    }
}

/// The number of devices that inventories report.
pub open spec fn reported(inventories: Seq<InventoryView>) -> nat
    decreases inventories.len(),
{
    if inventories.len() == 0 {
        0
    } else {
        reported(inventories.drop_last()) + inventories.last().paired.len()
    }
}

proof fn inventory_records_are_counted(inventories: Seq<InventoryView>)
    ensures
        inventory_records(inventories).len() == reported(inventories),
    decreases inventories.len(),
{
    if inventories.len() > 0 {
        inventory_records_are_counted(inventories.drop_last());
    }
}

/// The list has one card per reported device, per standalone device and per
/// webcam, one for the synthetic keyboard where it is asked for, and at most one
/// more per known device.
pub proof fn each_device_has_one_card(
    inventories: Seq<InventoryView>,
    standalone: Seq<StandaloneView>,
    demo_order: Option<Seq<char>>,
    known: Seq<KnownView>,
    cameras: Seq<CameraView>,
    names: Seq<(Seq<char>, Seq<char>)>,
)
    ensures
        ({
            let list = device_list(inventories, standalone, demo_order, known, cameras, names);
            let live = reported(inventories) + standalone.len() + (if demo_order is Some {
                1nat
            } else {
                0nat
            }) + cameras.len();
            live <= list.len() <= live + known.len()
        }),
{
    let live = live_records(inventories, standalone, demo_order);
    let all = gathered(inventories, standalone, demo_order, known, cameras);
    let shown = all.map_values(|record: RecordView| named(record, names));
    inventory_records_are_counted(inventories);
    placeholders_only_add(live, known, receivers(inventories));
    sorting_puts_in_order(shown, DeviceRecord::sort_key());
    sorting_puts_in_order(known, KnownDevice::sort_key());
    placeholders_are_few(live, arranged(known, KnownDevice::sort_key()), receivers(inventories));
}

proof fn placeholders_are_few(
    list: Seq<RecordView>,
    known: Seq<KnownView>,
    present: Seq<Seq<char>>,
)
    ensures
        list.len() <= with_known(list, known, present).len() <= list.len() + known.len(),
    decreases known.len(),
{
    if known.len() > 0 {
        placeholders_are_few(list, known.drop_last(), present);
    }
}

/// A receiver counts as plugged in exactly where an inventory reports it, whatever
/// the ASCII case of its id.
pub proof fn a_receiver_is_present_where_an_inventory_reports_it(
    inventories: Seq<InventoryView>,
    uid: Seq<char>,
)
    ensures
        receivers(inventories).contains(uid) <==> exists|i: int|
            0 <= i < inventories.len() && ((#[trigger] inventories[i]).receiver_uid matches Some(found)
                && lower_text(found) == uid),
    decreases inventories.len(),
{
    if inventories.len() > 0 {
        let start = inventories.drop_last();
        a_receiver_is_present_where_an_inventory_reports_it(start, uid);
        let before = receivers(start);
        let after = receivers(inventories);
        let last = inventories.len() - 1;
        if after.contains(uid) {
            let k = choose|k: int| 0 <= k < after.len() && after[k] == uid;
            if k < before.len() {
                assert(before[k] == uid);
                assert(before.contains(uid));
                let i = choose|i: int|
                    0 <= i < start.len() && ((#[trigger] start[i]).receiver_uid matches Some(found)
                        && lower_text(found) == uid);
                assert(inventories[i] == start[i]);
            } else {
                assert(inventories[last].receiver_uid is Some);
            }
        }
        if exists|i: int|
            0 <= i < inventories.len() && ((#[trigger] inventories[i]).receiver_uid matches Some(found)
                && lower_text(found) == uid) {
            let i = choose|i: int|
                0 <= i < inventories.len() && ((#[trigger] inventories[i]).receiver_uid matches Some(
                    found,
                ) && lower_text(found) == uid);
            if i < last {
                assert(start[i] == inventories[i]);
                assert(before.contains(uid));
                let k = choose|k: int| 0 <= k < before.len() && before[k] == uid;
                assert(after[k] == uid);
            } else {
                assert(after[before.len() as int] == uid);
            }
        }
    }
}

} // verus!
