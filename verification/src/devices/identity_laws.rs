//! What records go by, and which of two records of one device stands for it.

use vstd::prelude::*;
use vstd::string::*;

use crate::devices::codename::is_blank;
use crate::devices::fold::{adopted, an_online_record_wins, folded, survives, takes_over};
use crate::devices::model::{legacy_model, DeviceKind};
use crate::devices::record::RecordView;
use crate::text::{all_hex, hex4, hex_number, lower_text};

verus! {

/// Settings are persisted under the configuration key of a record, and only of one
/// that may be persisted.
pub proof fn only_persistent_records_have_a_persistent_key(record: RecordView, key: Seq<char>)
    ensures
        record.persistent_key() == Some(key) <==> record.persistent && record.config_key == key,
        record.persistent_key() is None <==> !record.persistent,
{
}

/// A live source is told from others by its capture id where it is a camera that
/// has one, and by its configuration key otherwise.
pub proof fn cameras_are_told_apart_by_their_capture_id(record: RecordView)
    ensures
        record.inventory_key() == (if record.kind == DeviceKind::Camera && record.capture_id is Some
            && record.capture_id->Some_0.len() > 0 {
            "cam-live:"@ + record.capture_id->Some_0
        } else {
            record.config_key
        }),
{
}

/// Two cameras of one model with different capture ids are two sources, though
/// they share their configuration key.
pub proof fn two_cameras_of_one_model_are_two_sources(left: RecordView, right: RecordView)
    requires
        left.kind == DeviceKind::Camera,
        right.kind == DeviceKind::Camera,
        left.capture_id is Some && left.capture_id->Some_0.len() > 0,
        right.capture_id is Some && right.capture_id->Some_0.len() > 0,
        left.capture_id != right.capture_id,
    ensures
        left.inventory_key() != right.inventory_key(),
{
    let head = "cam-live:"@;
    let a = head + left.capture_id->Some_0;
    let b = head + right.capture_id->Some_0;
    if a == b {
        assert(a.skip(head.len() as int) =~= left.capture_id->Some_0);
        assert(b.skip(head.len() as int) =~= right.capture_id->Some_0);
    }
}

/// User-facing state is kept under the configuration key of a record, but for a
/// camera without a serial number, which has none of its own.
pub proof fn nameless_cameras_go_by_their_capture_id(record: RecordView)
    ensures
        record.record_key() == (if record.kind == DeviceKind::Camera && (record.serial_number is None
            || is_blank(record.serial_number->Some_0)) {
            record.inventory_key()
        } else {
            record.config_key
        }),
{
}

/// The product id on the wire is that of the described model, in four digits. A
/// record without a described product id has the one that its model key spells out
/// behind `wpid`, in lower case, and else none.
pub proof fn the_wire_product_id_is_the_described_one(record: RecordView, digits: Seq<char>)
    ensures
        record.model_info is Some && record.model_info->Some_0.model_ids[0] != 0 ==> record.wire_pid()
            == Some(hex4(record.model_info->Some_0.model_ids[0] as nat)),
        (record.model_info is None || record.model_info->Some_0.model_ids[0] == 0)
            && record.model_key == "wpid"@ + digits ==> record.wire_pid() == Some(
            lower_text(digits),
        ),
        (record.model_info is None || record.model_info->Some_0.model_ids[0] == 0)
            && !"wpid"@.is_prefix_of(record.model_key) ==> record.wire_pid() is None,
{
    let head = "wpid"@;
    let key = head + digits;
    assert(key.subrange(0, head.len() as int) =~= head);
    assert(key.skip(head.len() as int) =~= digits);
}

/// Of the records with one key the last online one stands for the device, and the
/// last of all where none is online.
pub proof fn the_last_online_record_stands_for_the_device(
    list: Seq<RecordView>,
    key: Seq<char>,
    at: int,
)
    requires
        0 <= at < list.len(),
        list[at].inventory_key() == key,
        ({
            ||| list[at].online && forall|j: int|
                at < j < list.len() && (#[trigger] list[j]).inventory_key() == key
                    ==> !list[j].online
            ||| {
                &&& forall|j: int|
                    0 <= j < list.len() && (#[trigger] list[j]).inventory_key() == key
                        ==> !list[j].online
                &&& forall|j: int|
                    at < j < list.len() ==> (#[trigger] list[j]).inventory_key() != key
            }
        }),
    ensures
        folded(list).contains_key(key),
        folded(list)[key] == list[at],
{
    an_online_record_wins(list, key);
    let i = choose|i: int|
        0 <= i < list.len() && #[trigger] list[i] == folded(list)[key] && list[i].inventory_key()
            == key && survives(list, i);
    if i < at {
        assert(!takes_over(list[i], list[at]));
    } else if at < i {
        assert(list[i].inventory_key() == key);
        assert(list[at].online ==> folded(list)[key].online);
    }
}

/// No device is lost in a fold, and none is made up.
pub proof fn a_fold_has_the_devices_of_the_list(list: Seq<RecordView>, key: Seq<char>)
    ensures
        folded(list).contains_key(key) <==> exists|i: int|
            0 <= i < list.len() && (#[trigger] list[i]).inventory_key() == key,
{
    an_online_record_wins(list, key);
}

/// The first of two optional values that is there.
pub open spec fn preferring<T>(first: Option<T>, second: Option<T>) -> Option<T> {
    match first {
        Some(value) => Some(value),
        None => second,
    }
}

/// A card that takes in a live sighting keeps who the device is, as it was
/// persisted, and takes from the sighting what changes: how it is reached, whether
/// it answers, and what it measures. What the one leaves out comes from the other.
pub proof fn a_card_takes_in_what_changes(
    known: RecordView,
    live: RecordView,
    stable_order: Seq<char>,
)
    ensures
        ({
            let card = adopted(known, live, stable_order);
            &&& card.config_key == known.config_key
            &&& card.persistent
            &&& card.stable_order == stable_order
            &&& card.model_key == known.model_key
            &&& card.model_name == known.model_name
            &&& card.display_name == known.display_name
            &&& card.unit_id == known.unit_id
            &&& card.asset == preferring(known.asset, live.asset)
            &&& card.model_info == preferring(known.model_info, live.model_info)
            &&& card.codename == preferring(known.codename, live.codename)
            &&& card.serial_number == preferring(known.serial_number, live.serial_number)
            &&& card.kind == (if known.kind == DeviceKind::Unknown {
                live.kind
            } else {
                known.kind
            })
            &&& card.route_key == live.route_key
            &&& card.route == live.route
            &&& card.slot == live.slot
            &&& card.online == live.online
            &&& card.canonical_key == preferring(live.canonical_key, known.canonical_key)
            &&& card.driver_id == preferring(live.driver_id, known.driver_id)
            &&& card.registry_model_id == preferring(live.registry_model_id, known.registry_model_id)
            &&& card.capture_id == preferring(live.capture_id, known.capture_id)
            &&& card.capabilities == preferring(live.capabilities, known.capabilities)
            &&& card.light_capabilities == preferring(
                live.light_capabilities,
                known.light_capabilities,
            )
            &&& card.battery == preferring(live.battery, known.battery)
        }),
{
}

/// A legacy key spells out a model exactly where it is more than four hexadecimal
/// digits of which those before the last four fit one byte. The last four are the
/// product id and the others the variant, and nothing else is known of the model.
pub proof fn a_legacy_key_is_a_variant_and_a_product_id(key: Seq<char>)
    ensures
        legacy_model(key) is Some <==> key.len() > 4 && all_hex(key) && hex_number(
            key.take(key.len() - 4),
        ) <= 255,
        legacy_model(key) matches Some(model) ==> {
            &&& model.model_ids.len() == 3
            &&& model.model_ids[0] == hex_number(key.skip(key.len() - 4)) as u16
            &&& model.model_ids[1] == 0
            &&& model.model_ids[2] == 0
            &&& model.extended_model_id == hex_number(key.take(key.len() - 4))
            &&& model.entity_count == 0
            &&& model.serial_number is None
            &&& model.unit_id == seq![0u8, 0u8, 0u8, 0u8]
        },
{
}

} // verus!
