//! Which known devices get a card, and in which order cards come.

use vstd::prelude::*;
use vstd::string::*;

use crate::devices::key_laws::colon_free;
use crate::devices::keys::{direct_prefix, receiver_uid};
use crate::devices::list::{
    device_list, gathered, named, InventoryView,
};
use crate::devices::offline::{
    admitted, lists_key, lists_model, lists_pid, receiver_present, unreachable_entry, with_known,
    with_offline, KnownDevice, KnownView,
};
use crate::devices::record::{DeviceRecord, RecordView};
use crate::devices::sighting::{CameraView, StandaloneView};
use crate::sorting::{arranged, key_before, sorting_puts_in_order, texts_before, Sortable};
use crate::text::{colon_at, colon_is_the_first, text_before, texts_are_ordered};

verus! {

/// A device is out of reach exactly where every route to it names a receiver that
/// is not plugged in: each of its links names one, its own key names one or else
/// there is a link, and none of those receivers is present. A route that names no
/// receiver, other than its own key, might reach it still.
pub proof fn a_device_is_out_of_reach_without_its_receivers(
    key: Seq<char>,
    links: Seq<Seq<char>>,
    present: Seq<Seq<char>>,
)
    ensures
        unreachable_entry(key, links, present) <==> {
            &&& receiver_uid(key) is Some || links.len() > 0
            &&& (receiver_uid(key) matches Some(uid) ==> !present.contains(uid))
            &&& forall|i: int|
                0 <= i < links.len() ==> (receiver_uid(#[trigger] links[i]) matches Some(uid)
                    && !present.contains(uid))
        },
{
    if unreachable_entry(key, links, present) {
        assert forall|i: int| 0 <= i < links.len() implies (receiver_uid(#[trigger] links[i]) matches
            Some(uid) && !present.contains(uid)) by {
            assert(receiver_uid(links[i]) is Some);
            assert(!receiver_present(links[i], present));
        }
    }
    if forall|i: int|
        0 <= i < links.len() ==> (receiver_uid(#[trigger] links[i]) matches Some(uid)
            && !present.contains(uid)) {
        assert forall|i: int| 0 <= i < links.len() implies receiver_uid(#[trigger] links[i]) is Some
            && !receiver_present(links[i], present) by {
            assert(receiver_uid(links[i]) matches Some(uid) && !present.contains(uid));
        }
    }
}

/// Plugging in another receiver puts no device out of reach.
pub proof fn another_receiver_puts_nothing_out_of_reach(
    key: Seq<char>,
    links: Seq<Seq<char>>,
    present: Seq<Seq<char>>,
    more: Seq<char>,
)
    ensures
        unreachable_entry(key, links, present.push(more)) ==> unreachable_entry(
            key,
            links,
            present,
        ),
{
    a_device_is_out_of_reach_without_its_receivers(key, links, present);
    a_device_is_out_of_reach_without_its_receivers(key, links, present.push(more));
    assert forall|uid: Seq<char>| present.contains(uid) implies #[trigger] present.push(
        more,
    ).contains(uid) by {
        let i = choose|i: int| 0 <= i < present.len() && present[i] == uid;
        assert(present.push(more)[i] == uid);
    }
    if unreachable_entry(key, links, present.push(more)) {
        assert forall|i: int| 0 <= i < links.len() implies (receiver_uid(#[trigger] links[i]) matches
            Some(uid) && !present.contains(uid)) by {
            let uid = receiver_uid(links[i])->Some_0;
            assert(!present.push(more).contains(uid));
        }
        if let Some(uid) = receiver_uid(key) {
            assert(!present.push(more).contains(uid));
        }
    }
}

/// Only a key that starts with `receiver:` names a receiver, and only one that
/// starts with `direct:` names a product.
pub proof fn other_keys_name_nothing(key: Seq<char>)
    ensures
        receiver_uid(key) is Some <==> "receiver:"@.is_prefix_of(key),
        direct_prefix(key) is Some ==> "direct:"@.is_prefix_of(key) && direct_prefix(
            key,
        )->Some_0.is_prefix_of(key),
{
    if let Some(prefix) = direct_prefix(key) {
        let head = "direct:"@;
        let rest = key.skip(head.len() as int);
        colon_is_the_first(rest);
        let first = colon_at(rest);
        colon_is_the_first(rest.skip(first + 1));
        assert(key =~= head + rest);
        assert(key.subrange(0, prefix.len() as int) =~= prefix);
    }
}

/// A direct key names a product only where its three fields are all there: a
/// vendor and a product, neither of them empty or with a colon, and an identity.
pub proof fn a_direct_key_has_three_fields(key: Seq<char>, prefix: Seq<char>) -> (fields: (
    Seq<char>,
    Seq<char>,
    Seq<char>,
))
    requires
        direct_prefix(key) == Some(prefix),
    ensures
        ({
            let (vid, pid, identity) = fields;
            &&& vid.len() > 0 && pid.len() > 0 && identity.len() > 0
            &&& colon_free(vid) && colon_free(pid)
            &&& prefix == "direct:"@ + vid + seq![':'] + pid
            &&& key == prefix + seq![':'] + identity
        }),
{
    let head = "direct:"@;
    let rest = key.skip(head.len() as int);
    colon_is_the_first(rest);
    let first = colon_at(rest);
    let tail = rest.skip(first + 1);
    colon_is_the_first(tail);
    let second = colon_at(tail);
    let vid = rest.take(first);
    let pid = tail.take(second);
    let identity = tail.skip(second + 1);
    assert(key =~= head + rest);
    assert(rest =~= vid + seq![':'] + tail);
    assert(tail =~= pid + seq![':'] + identity);
    assert(prefix =~= head + vid + seq![':'] + pid);
    assert(key =~= prefix + seq![':'] + identity);
    assert forall|i: int| 0 <= i < vid.len() implies vid[i] != ':' by {
        assert(vid[i] == rest[i]);
    }
    assert forall|i: int| 0 <= i < pid.len() implies pid[i] != ':' by {
        assert(pid[i] == tail[i]);
    }
    (vid, pid, identity)
}

/// Some listed record has the configuration key `key`, the model key `model`, or
/// the wire product id `pid`.
pub open spec fn is_listed(
    list: Seq<RecordView>,
    key: Seq<char>,
    model: Option<Seq<char>>,
    pid: Option<Seq<char>>,
) -> bool {
    exists|i: int|
        0 <= i < list.len() && {
            ||| (#[trigger] list[i]).config_key == key
            ||| model == Some(list[i].model_key)
            ||| pid is Some && list[i].wire_pid() == pid
        }
}

/// A known device whose key identifies it gets a card exactly where it is not
/// transient, might be reached, and is not listed under its key already.
pub proof fn a_physical_device_gets_a_card_unless_it_is_listed(
    list: Seq<RecordView>,
    known: KnownView,
    present: Seq<Seq<char>>,
)
    requires
        known.physical,
    ensures
        admitted(list, known, present) <==> !known.transient && !unreachable_entry(
            known.key,
            known.links,
            present,
        ) && !is_listed(list, known.key, None, None),
{
    listing_is_listing(list, known.key, None, None);
}

/// A known device whose key names a model rather than a device gets a card only
/// where, besides, neither that model nor its product id on the wire is listed:
/// it would be a duplicate.
pub proof fn a_model_key_gets_a_card_unless_its_model_is_listed(
    list: Seq<RecordView>,
    known: KnownView,
    present: Seq<Seq<char>>,
)
    requires
        !known.physical,
    ensures
        ({
            let model_key = if known.identity.model_info is Some && known.model is Some {
                known.model->Some_0.config_key
            } else {
                known.key
            };
            admitted(list, known, present) <==> !known.transient && !unreachable_entry(
                known.key,
                known.links,
                present,
            ) && !is_listed(list, known.key, Some(model_key), known.placeholder().wire_pid())
        }),
{
    let model_key = if known.identity.model_info is Some && known.model is Some {
        known.model->Some_0.config_key
    } else {
        known.key
    };
    listing_is_listing(list, known.key, Some(model_key), known.placeholder().wire_pid());
}

proof fn listing_is_listing(
    list: Seq<RecordView>,
    key: Seq<char>,
    model: Option<Seq<char>>,
    pid: Option<Seq<char>>,
)
    ensures
        is_listed(list, key, model, pid) <==> lists_key(list, key) || (model is Some && lists_model(
            list,
            model->Some_0,
        )) || (pid is Some && lists_pid(list, pid->Some_0)),
{
    if is_listed(list, key, model, pid) {
        let i = choose|i: int|
            0 <= i < list.len() && {
                ||| (#[trigger] list[i]).config_key == key
                ||| model == Some(list[i].model_key)
                ||| pid is Some && list[i].wire_pid() == pid
            };
        assert(list[i].config_key == key || model == Some(list[i].model_key) || list[i].wire_pid()
            == pid);
    }
    if lists_key(list, key) {
        let i = choose|i: int| 0 <= i < list.len() && (#[trigger] list[i]).config_key == key;
        assert(list[i].config_key == key);
    }
    if model is Some && lists_model(list, model->Some_0) {
        let i = choose|i: int|
            0 <= i < list.len() && (#[trigger] list[i]).model_key == model->Some_0;
        assert(model == Some(list[i].model_key));
    }
    if pid is Some && lists_pid(list, pid->Some_0) {
        let i = choose|i: int|
            0 <= i < list.len() && (#[trigger] list[i]).wire_pid() == Some(pid->Some_0);
        assert(list[i].wire_pid() == pid);
    }
}

/// Known devices are taken up one by one: each is admitted or not in view of the
/// cards that are there by then, and an admitted one adds its placeholder behind
/// them.
pub proof fn known_devices_are_taken_up_in_turn(
    list: Seq<RecordView>,
    known: Seq<KnownView>,
    next: KnownView,
    present: Seq<Seq<char>>,
)
    ensures
        with_known(list, Seq::empty(), present) == list,
        with_offline(list, known, present) == with_known(
            list,
            arranged(known, KnownDevice::sort_key()),
            present,
        ),
        ({
            let before = with_known(list, known, present);
            with_known(list, known.push(next), present) == if admitted(before, next, present) {
                before.push(next.placeholder())
            } else {
                before
            }
        }),
{
    assert(known.push(next).drop_last() =~= known);
}

/// Known devices with a described model are taken up before the others, and those
/// of either sort in the order of their keys.
pub proof fn described_devices_are_taken_up_first(known: Seq<KnownView>, i: int, j: int)
    requires
        0 <= i < j < arranged(known, KnownDevice::sort_key()).len(),
    ensures
        ({
            let sorted = arranged(known, KnownDevice::sort_key());
            let earlier = sorted[i];
            let later = sorted[j];
            &&& later.identity.model_info is Some ==> earlier.identity.model_info is Some
            &&& (later.identity.model_info is Some) == (earlier.identity.model_info is Some)
                ==> !text_before(later.key, earlier.key)
        }),
{
    let sorted = arranged(known, KnownDevice::sort_key());
    sorting_puts_in_order(known, KnownDevice::sort_key());
    let a = (KnownDevice::sort_key())(sorted[i]);
    let b = (KnownDevice::sort_key())(sorted[j]);
    assert(!key_before(b, a));
    assert(a.1 == seq![sorted[i].key]);
    assert(b.1 == seq![sorted[j].key]);
    texts_are_ordered(sorted[j].key, sorted[i].key);
    reveal_with_fuel(texts_before, 2);
}

/// The list is in the order of stable identity, then of model key, then of model
/// name: no card stands behind one that it should precede.
pub proof fn cards_come_in_order(
    inventories: Seq<InventoryView>,
    standalone: Seq<StandaloneView>,
    demo_order: Option<Seq<char>>,
    known: Seq<KnownView>,
    cameras: Seq<CameraView>,
    names: Seq<(Seq<char>, Seq<char>)>,
    i: int,
    j: int,
)
    requires
        0 <= i < j < device_list(
            inventories,
            standalone,
            demo_order,
            known,
            cameras,
            names,
        ).len(),
    ensures
        ({
            let list = device_list(inventories, standalone, demo_order, known, cameras, names);
            let earlier = list[i];
            let later = list[j];
            &&& !text_before(later.stable_order, earlier.stable_order)
            &&& later.stable_order == earlier.stable_order ==> !text_before(
                later.model_key,
                earlier.model_key,
            )
            &&& later.stable_order == earlier.stable_order && later.model_key == earlier.model_key
                ==> !text_before(later.model_name, earlier.model_name)
        }),
{
    let all = gathered(inventories, standalone, demo_order, known, cameras);
    let shown = all.map_values(|record: RecordView| named(record, names));
    let list = arranged(shown, DeviceRecord::sort_key());
    sorting_puts_in_order(shown, DeviceRecord::sort_key());
    let a = list[i];
    let b = list[j];
    let x = (DeviceRecord::sort_key())(a);
    let y = (DeviceRecord::sort_key())(b);
    assert(!key_before(y, x));
    let p = seq![a.stable_order, a.model_key, a.model_name];
    let q = seq![b.stable_order, b.model_key, b.model_name];
    assert(x.1 == p && y.1 == q);
    assert(p.skip(1) =~= seq![a.model_key, a.model_name]);
    assert(q.skip(1) =~= seq![b.model_key, b.model_name]);
    assert(p.skip(1).skip(1) =~= seq![a.model_name]);
    assert(q.skip(1).skip(1) =~= seq![b.model_name]);
    texts_are_ordered(b.stable_order, a.stable_order);
    texts_are_ordered(b.model_key, a.model_key);
    texts_are_ordered(b.model_name, a.model_name);
    reveal_with_fuel(texts_before, 4);
}

} // verus!
