//! The device list as a whole.

use vstd::prelude::*;
use vstd::string::*;

use crate::devices::offline::{append_offline_known, with_offline, KnownDevice, KnownView};
use crate::devices::record::{demo_keyboard, demo_view, DeviceRecord, RecordView};
use crate::devices::sighting::{
    append_standalone, camera_record, paired_record, standalone_records, Camera, CameraView,
    PairedSighting, PairedView, StandaloneDevice, StandaloneView,
};
use crate::seqs::{opt_view, views};
use crate::sorting::{arrange, arranged, SortKey, Sortable};
use crate::text::{
    lower_text, same_text, sorts_before, texts_are_ordered, to_lower_text,
};

verus! {

/// What one receiver, or one direct connection, reports.
#[derive(Debug)]
pub struct DeviceInventory {
    /// Unique id of the receiver.
    pub receiver_uid: Option<String>,
    /// Devices that are paired with it.
    pub paired: Vec<PairedSighting>,
}

/// Mathematical content of a [`DeviceInventory`].
pub struct InventoryView {
    /// See [`DeviceInventory::receiver_uid`].
    pub receiver_uid: Option<Seq<char>>,
    /// See [`DeviceInventory::paired`].
    pub paired: Seq<PairedView>,
}

impl View for DeviceInventory {
    type V = InventoryView;

    open spec fn view(&self) -> InventoryView {
        InventoryView { receiver_uid: opt_view(self.receiver_uid), paired: views(self.paired@) }
    }
}

/// The records of paired devices.
pub open spec fn paired_records(paired: Seq<PairedView>) -> Seq<RecordView> {
    paired.map_values(|device: PairedView| device.record())
}

/// The records of everything that the inventories report, in their order.
pub open spec fn inventory_records(inventories: Seq<InventoryView>) -> Seq<RecordView>
    decreases inventories.len(),
{
    if inventories.len() == 0 {
        Seq::empty()
    } else {
        inventory_records(inventories.drop_last()) + paired_records(inventories.last().paired)
    }
}

/// The receivers that are plugged in, in lower case.
pub open spec fn receivers(inventories: Seq<InventoryView>) -> Seq<Seq<char>>
    decreases inventories.len(),
{
    if inventories.len() == 0 {
        Seq::empty()
    } else {
        let before = receivers(inventories.drop_last());
        match inventories.last().receiver_uid {
            Some(uid) => before.push(lower_text(uid)),
            None => before,
        }
    }
}

fn append_paired(list: &mut Vec<DeviceRecord>, paired: &[PairedSighting])
    ensures
        views(final(list)@) == views(old(list)@) + paired_records(views(paired@)),
{
    let ghost before = views(list@);
    let ghost all = paired_records(views(paired@));
    let mut i: usize = 0;
    assert(views(list@) =~= before + all.take(0));
    while i < paired.len()
        invariant
            i <= paired@.len(),
            all == paired_records(views(paired@)),
            views(list@) == before + all.take(i as int),
        decreases paired@.len() - i,
    {
        let ghost now = views(list@);
        list.push(paired_record(&paired[i]));
        proof {
            assert(views(paired@)[i as int] == paired@[i as int]@);
            assert(views(list@) =~= now.push(all[i as int]));
            assert(views(list@) =~= before + all.take(i + 1));
        }
        i += 1;
    }
    assert(all.take(i as int) =~= all);
}

fn inventory_list(inventories: &[DeviceInventory]) -> (list: Vec<DeviceRecord>)
    ensures
        views(list@) == inventory_records(views(inventories@)),
{
    let ghost all = views(inventories@);
    let mut list: Vec<DeviceRecord> = Vec::new();
    let mut i: usize = 0;
    assert(views(list@) =~= Seq::<RecordView>::empty());
    assert(all.take(0) =~= Seq::<InventoryView>::empty());
    while i < inventories.len()
        invariant
            i <= inventories@.len(),
            all == views(inventories@),
            views(list@) == inventory_records(all.take(i as int)),
        decreases inventories@.len() - i,
    {
        append_paired(&mut list, inventories[i].paired.as_slice());
        proof {
            assert(all.take(i + 1).drop_last() =~= all.take(i as int));
            assert(all.take(i + 1).last() == inventories@[i as int]@);
        }
        i += 1;
    }
    assert(all.take(i as int) =~= all);
    list
}

/// The receivers that are plugged in.
pub fn present_receivers(inventories: &[DeviceInventory]) -> (present: Vec<String>)
    ensures
        views(present@) == receivers(views(inventories@)),
{
    let ghost all = views(inventories@);
    let mut present: Vec<String> = Vec::new();
    let mut i: usize = 0;
    assert(views(present@) =~= Seq::<Seq<char>>::empty());
    assert(all.take(0) =~= Seq::<InventoryView>::empty());
    while i < inventories.len()
        invariant
            i <= inventories@.len(),
            all == views(inventories@),
            views(present@) == receivers(all.take(i as int)),
        decreases inventories@.len() - i,
    {
        let ghost before = views(present@);
        proof {
            assert(all.take(i + 1).drop_last() =~= all.take(i as int));
            assert(all.take(i + 1).last() == inventories@[i as int]@);
        }
        if let Some(uid) = &inventories[i].receiver_uid {
            present.push(to_lower_text(uid.as_str()));
            assert(views(present@) =~= before.push(lower_text(uid@)));
        }
        i += 1;
    }
    assert(all.take(i as int) =~= all);
    present
}

/// The records of webcams.
pub open spec fn camera_records(cameras: Seq<CameraView>) -> Seq<RecordView> {
    cameras.map_values(|camera: CameraView| camera.record())
}

fn append_cameras(list: &mut Vec<DeviceRecord>, cameras: &[Camera])
    ensures
        views(final(list)@) == views(old(list)@) + camera_records(views(cameras@)),
{
    let ghost before = views(list@);
    let ghost all = camera_records(views(cameras@));
    let mut i: usize = 0;
    assert(views(list@) =~= before + all.take(0));
    while i < cameras.len()
        invariant
            i <= cameras@.len(),
            all == camera_records(views(cameras@)),
            views(list@) == before + all.take(i as int),
        decreases cameras@.len() - i,
    {
        let ghost now = views(list@);
        list.push(camera_record(&cameras[i]));
        proof {
            assert(views(cameras@)[i as int] == cameras@[i as int]@);
            assert(views(list@) =~= now.push(all[i as int]));
            assert(views(list@) =~= before + all.take(i + 1));
        }
        i += 1;
    }
    assert(all.take(i as int) =~= all);
}

/// The alias that is configured for a key.
pub open spec fn alias(names: Seq<(Seq<char>, Seq<char>)>, key: Seq<char>) -> Option<Seq<char>>
    decreases names.len(),
{
    if names.len() == 0 {
        None
    } else if names[0].0 == key {
        Some(names[0].1)
    } else {
        alias(names.skip(1), key)
    }
}

/// A record under its alias, where settings of it are kept at all and it has
/// one.
pub open spec fn named(record: RecordView, names: Seq<(Seq<char>, Seq<char>)>) -> RecordView {
    if record.persistent && alias(names, record.record_key()) is Some {
        RecordView { display_name: alias(names, record.record_key())->Some_0, ..record }
    } else {
        record
    }
}

fn find_alias(names: &[(String, String)], key: &str) -> (found: Option<String>)
    ensures
        opt_view(found) == alias(views(names@), key@),
{
    let ghost all = views(names@);
    let mut i: usize = 0;
    assert(all.skip(0) =~= all);
    while i < names.len()
        invariant
            i <= names@.len(),
            all == views(names@),
            alias(all, key@) == alias(all.skip(i as int), key@),
        decreases names@.len() - i,
    {
        assert(all.skip(i as int)[0] == names@[i as int]@);
        if same_text(names[i].0.as_str(), key) {
            return Some(names[i].1.clone());
        }
        assert(all.skip(i as int).skip(1) =~= all.skip(i + 1));
        i += 1;
    }
    None
}

/// Shows every record under its alias.
pub fn apply_custom_names(list: &mut Vec<DeviceRecord>, names: &[(String, String)])
    ensures
        views(final(list)@) == views(old(list)@).map_values(
            |record: RecordView| named(record, views(names@)),
        ),
{
    let ghost before = views(list@);
    let ghost aliases = views(names@);
    let mut i: usize = 0;
    while i < list.len()
        invariant
            i <= list@.len(),
            list@.len() == before.len(),
            aliases == views(names@),
            forall|k: int| 0 <= k < i ==> (#[trigger] list@[k])@ == named(before[k], aliases),
            forall|k: int| i <= k < before.len() ==> (#[trigger] list@[k])@ == before[k],
        decreases list@.len() - i,
    {
        if list[i].is_persistent() {
            let key = list[i].record_key();
            if let Some(name) = find_alias(names, key.as_str()) {
                let mut record = list[i].clone();
                record.display_name = name;
                list.set(i, record);
            }
        }
        i += 1;
    }
    assert(views(list@) =~= before.map_values(|record: RecordView| named(record, aliases)));
}

impl Sortable for DeviceRecord {
    open spec fn sort_key() -> spec_fn(RecordView) -> SortKey {
        |record: RecordView|
            (false, seq![record.stable_order, record.model_key, record.model_name])
    }

    fn comes_before(&self, other: &Self) -> (before: bool) {
        proof {
            let a = seq![self@.stable_order, self@.model_key, self@.model_name];
            let b = seq![other@.stable_order, other@.model_key, other@.model_name];
            reveal_with_fuel(crate::sorting::texts_before, 4);
            assert(a.skip(1) =~= seq![self@.model_key, self@.model_name]);
            assert(b.skip(1) =~= seq![other@.model_key, other@.model_name]);
            assert(a.skip(1).skip(1) =~= seq![self@.model_name]);
            assert(b.skip(1).skip(1) =~= seq![other@.model_name]);
            assert(a.skip(1).skip(1).skip(1) =~= Seq::<Seq<char>>::empty());
            assert(b.skip(1).skip(1).skip(1) =~= Seq::<Seq<char>>::empty());
            texts_are_ordered(self@.model_name, other@.model_name);
        }
        if !same_text(self.stable_order.as_str(), other.stable_order.as_str()) {
            sorts_before(self.stable_order.as_str(), other.stable_order.as_str())
        } else if !same_text(self.model_key.as_str(), other.model_key.as_str()) {
            sorts_before(self.model_key.as_str(), other.model_key.as_str())
        } else {
            sorts_before(self.model_name.as_str(), other.model_name.as_str())
        }
    }
}

/// Order the gallery by stable identity, and then by model.
///
/// Enumeration order can change as devices wake, sleep, or are selected; sorting
/// by what does not change keeps the list in place.
pub fn sort_device_list(list: &mut Vec<DeviceRecord>)
    ensures
        views(final(list)@) == arranged(views(old(list)@), DeviceRecord::sort_key()),
{
    let mut records: Vec<DeviceRecord> = Vec::new();
    core::mem::swap(&mut records, list);
    *list = arrange(records);
}

/// The synthetic keyboard, if it is shown.
pub open spec fn demo_records(demo_order: Option<Seq<char>>) -> Seq<RecordView> {
    match demo_order {
        Some(order) => seq![RecordView { stable_order: order, ..demo_view() }],
        None => Seq::empty(),
    }
}

/// The devices that answer to an inventory or a driver.
pub open spec fn live_records(
    inventories: Seq<InventoryView>,
    standalone: Seq<StandaloneView>,
    demo_order: Option<Seq<char>>,
) -> Seq<RecordView> {
    inventory_records(inventories) + standalone_records(standalone) + demo_records(demo_order)
}

/// The whole list, before it is given its names and its order.
pub open spec fn gathered(
    inventories: Seq<InventoryView>,
    standalone: Seq<StandaloneView>,
    demo_order: Option<Seq<char>>,
    known: Seq<KnownView>,
    cameras: Seq<CameraView>,
) -> Seq<RecordView> {
    with_offline(
        live_records(inventories, standalone, demo_order),
        known,
        receivers(inventories),
    ) + camera_records(cameras)
}

/// The device list.
pub open spec fn device_list(
    inventories: Seq<InventoryView>,
    standalone: Seq<StandaloneView>,
    demo_order: Option<Seq<char>>,
    known: Seq<KnownView>,
    cameras: Seq<CameraView>,
    names: Seq<(Seq<char>, Seq<char>)>,
) -> Seq<RecordView> {
    arranged(
        gathered(inventories, standalone, demo_order, known, cameras).map_values(
            |record: RecordView| named(record, names),
        ),
        DeviceRecord::sort_key(),
    )
}

/// Build the gallery's device list as the union of the live inventory and the
/// persisted set of devices seen before.
///
/// A known device is shown whether or not a probe wins its race; the live probe
/// only enriches it. The synthetic keyboard is shown where `demo_order` gives it
/// a place.
pub fn build_device_list(
    inventories: &[DeviceInventory],
    standalone: &[StandaloneDevice],
    demo_order: Option<String>,
    known: Vec<KnownDevice>,
    cameras: &[Camera],
    custom_names: &[(String, String)],
) -> (list: Vec<DeviceRecord>)
    ensures
        views(list@) == device_list(
            views(inventories@),
            views(standalone@),
            opt_view(demo_order),
            views(known@),
            views(cameras@),
            views(custom_names@),
        ),
{
    let ghost order = opt_view(demo_order);
    let mut list = inventory_list(inventories);
    append_standalone(&mut list, standalone);
    let ghost before = views(list@);
    if let Some(demo_order) = demo_order {
        list.push(demo_keyboard(demo_order));
    }
    assert(views(list@) =~= before + demo_records(order));
    let present = present_receivers(inventories);
    append_offline_known(&mut list, known, present.as_slice());
    append_cameras(&mut list, cameras);
    apply_custom_names(&mut list, custom_names);
    sort_device_list(&mut list);
    list
}

} // verus!
