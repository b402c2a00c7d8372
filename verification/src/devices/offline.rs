//! Known devices that are not there at the moment.

use vstd::prelude::*;
use vstd::string::*;

use crate::devices::codename::{blank, is_blank};
use crate::devices::keys::{receiver_uid, receiver_uid_of};
use crate::devices::model::{
    copy_asset, copy_text, legacy_model, model_info_from_legacy_model_key, no_unit,
    AssetView, Capabilities, DeviceKind, DeviceModelInfo, LightCapabilities, ModelView,
    ResolvedAsset,
};
use crate::devices::record::{record_wire_pid, DeviceRecord, RecordView};
use crate::seqs::{opt_view, views};
use crate::sorting::{arrange, arranged, SortKey, Sortable};
use crate::text::{same_text, sorts_before};

verus! {

/// What is persisted about a device that was seen before.
#[derive(Debug)]
pub struct DeviceIdentity {
    /// Name that it was shown under.
    pub display_name: String,
    /// Raw codename.
    pub codename: Option<String>,
    /// What sort of device it is.
    pub kind: DeviceKind,
    /// What of it can be configured.
    pub capabilities: Capabilities,
    /// What of a standalone light can be controlled.
    pub light_capabilities: Option<LightCapabilities>,
    /// Standalone driver family.
    pub driver_id: Option<String>,
    /// Model identity in the asset registry.
    pub registry_model_id: Option<String>,
    /// What the device said about its model.
    pub model_info: Option<DeviceModelInfo>,
}

/// What is known about a model from elsewhere.
#[derive(Debug)]
pub struct ModelLookup {
    /// Key that configuration and registry give the model.
    pub config_key: String,
    /// Artwork of the model, if any was found.
    pub asset: Option<ResolvedAsset>,
}

/// A device that was seen before, with what its key stands for.
#[derive(Debug)]
pub struct KnownDevice {
    /// Configuration key.
    pub key: String,
    /// What is persisted about it.
    pub identity: DeviceIdentity,
    /// Routes that it was linked to.
    pub links: Vec<String>,
    /// Whether the key never identified a physical device.
    pub transient: bool,
    /// Whether the key identifies one physical device, rather than a model.
    pub physical: bool,
    /// Lookup of its model, wherever its model is persisted or its key spells one
    /// out.
    pub model: Option<ModelLookup>,
    /// Artwork of its registry model, where it has one.
    pub registry_asset: Option<ResolvedAsset>,
    /// Text that sorts as its stable identity does.
    pub stable_order: String,
}

/// Mathematical content of a [`DeviceIdentity`].
pub struct IdentityView {
    /// See [`DeviceIdentity::display_name`].
    pub display_name: Seq<char>,
    /// See [`DeviceIdentity::codename`].
    pub codename: Option<Seq<char>>,
    /// See [`DeviceIdentity::kind`].
    pub kind: DeviceKind,
    /// See [`DeviceIdentity::capabilities`].
    pub capabilities: Capabilities,
    /// See [`DeviceIdentity::light_capabilities`].
    pub light_capabilities: Option<LightCapabilities>,
    /// See [`DeviceIdentity::driver_id`].
    pub driver_id: Option<Seq<char>>,
    /// See [`DeviceIdentity::registry_model_id`].
    pub registry_model_id: Option<Seq<char>>,
    /// See [`DeviceIdentity::model_info`].
    pub model_info: Option<ModelView>,
}

impl View for DeviceIdentity {
    type V = IdentityView;

    open spec fn view(&self) -> IdentityView {
        IdentityView {
            display_name: self.display_name@,
            codename: opt_view(self.codename),
            kind: self.kind,
            capabilities: self.capabilities,
            light_capabilities: self.light_capabilities,
            driver_id: opt_view(self.driver_id),
            registry_model_id: opt_view(self.registry_model_id),
            model_info: opt_view(self.model_info),
        }
    }
}

/// Mathematical content of a [`ModelLookup`].
pub struct LookupView {
    /// See [`ModelLookup::config_key`].
    pub config_key: Seq<char>,
    /// See [`ModelLookup::asset`].
    pub asset: Option<AssetView>,
}

impl View for ModelLookup {
    type V = LookupView;

    open spec fn view(&self) -> LookupView {
        LookupView { config_key: self.config_key@, asset: opt_view(self.asset) }
    }
}

/// Mathematical content of a [`KnownDevice`].
pub struct KnownView {
    /// See [`KnownDevice::key`].
    pub key: Seq<char>,
    /// See [`KnownDevice::identity`].
    pub identity: IdentityView,
    /// See [`KnownDevice::links`].
    pub links: Seq<Seq<char>>,
    /// See [`KnownDevice::transient`].
    pub transient: bool,
    /// See [`KnownDevice::physical`].
    pub physical: bool,
    /// See [`KnownDevice::model`].
    pub model: Option<LookupView>,
    /// See [`KnownDevice::registry_asset`].
    pub registry_asset: Option<AssetView>,
    /// See [`KnownDevice::stable_order`].
    pub stable_order: Seq<char>,
}

impl View for KnownDevice {
    type V = KnownView;

    open spec fn view(&self) -> KnownView {
        KnownView {
            key: self.key@,
            identity: self.identity@,
            links: views(self.links@),
            transient: self.transient,
            physical: self.physical,
            model: opt_view(self.model),
            registry_asset: opt_view(self.registry_asset),
            stable_order: self.stable_order@,
        }
    }
}

/// The name of artwork, where it has one, or else the given name.
pub open spec fn shown_name(asset: Option<AssetView>, otherwise: Seq<char>) -> Seq<char> {
    match asset {
        Some(asset) if !is_blank(asset.display_name) => asset.display_name,
        _ => otherwise,
    }
}

/// Chooses between the name of artwork and the given name.
pub fn name_to_show(asset: &Option<ResolvedAsset>, otherwise: &String) -> (name: String)
    ensures
        name@ == shown_name(opt_view(*asset), otherwise@),
{
    if let Some(asset) = asset {
        if !blank(asset.display_name.as_str()) {
            return asset.display_name.clone();
        }
    }
    otherwise.clone()
}

impl KnownView {
    /// The model: as it was persisted, or as a legacy key spells it out.
    pub open spec fn model_info(self) -> Option<ModelView> {
        if self.identity.model_info is Some {
            self.identity.model_info
        } else {
            legacy_model(self.key)
        }
    }

    /// The artwork: that of the registry model first.
    pub open spec fn asset(self) -> Option<AssetView> {
        if self.identity.registry_model_id is Some && self.registry_asset is Some {
            self.registry_asset
        } else if self.model_info() is Some && self.model is Some {
            self.model->Some_0.asset
        } else {
            None
        }
    }

    /// The key of a model description, where there is one, or else the device's.
    /// A described model comes with its lookup.
    pub open spec fn model_key(self, info: Option<ModelView>) -> Seq<char> {
        if info is Some && self.model is Some {
            self.model->Some_0.config_key
        } else {
            self.key
        }
    }

    /// The placeholder that stands for the device while it is away.
    pub open spec fn placeholder(self) -> RecordView {
        let name = shown_name(self.asset(), self.identity.display_name);
        RecordView {
            config_key: self.key,
            canonical_key: None,
            persistent: true,
            route_key: self.key,
            stable_order: self.stable_order,
            model_key: self.model_key(self.model_info()),
            model_name: name,
            display_name: name,
            asset: self.asset(),
            model_info: self.model_info(),
            codename: self.identity.codename,
            serial_number: None,
            unit_id: no_unit(),
            driver_id: self.identity.driver_id,
            registry_model_id: self.identity.registry_model_id,
            route: None,
            capture_id: None,
            kind: self.identity.kind,
            capabilities: Some(self.identity.capabilities),
            light_capabilities: self.identity.light_capabilities,
            slot: 0,
            online: false,
            battery: None,
        }
    }
}

/// Synthesize an offline placeholder from a persisted identity.
///
/// Without a route every hardware write is a no-op until the live inventory
/// supplies one; the persisted capabilities keep the device's panels visible
/// while it sleeps.
pub fn offline_record(known: &KnownDevice) -> (record: DeviceRecord)
    ensures
        record@ == known@.placeholder(),
{
    let identity = &known.identity;
    let model_info = match &identity.model_info {
        Some(info) => Some(info.clone()),
        None => model_info_from_legacy_model_key(known.key.as_str()),
    };
    assert(opt_view(model_info) == known@.model_info());
    let mut asset: Option<ResolvedAsset> = None;
    if identity.registry_model_id.is_some() {
        asset = copy_asset(&known.registry_asset);
    }
    if asset.is_none() && model_info.is_some() {
        if let Some(lookup) = &known.model {
            asset = copy_asset(&lookup.asset);
        }
    }
    assert(opt_view(asset) == known@.asset());
    let model_key = match (&model_info, &known.model) {
        (Some(_), Some(lookup)) => lookup.config_key.clone(),
        _ => known.key.clone(),
    };
    let display_name = name_to_show(&asset, &identity.display_name);
    let record = DeviceRecord {
        config_key: known.key.clone(),
        canonical_key: None,
        persistent: true,
        route_key: known.key.clone(),
        stable_order: known.stable_order.clone(),
        model_key,
        model_name: display_name.clone(),
        display_name,
        asset,
        model_info,
        codename: copy_text(&identity.codename),
        serial_number: None,
        unit_id: [0, 0, 0, 0],
        driver_id: copy_text(&identity.driver_id),
        registry_model_id: copy_text(&identity.registry_model_id),
        route: None,
        capture_id: None,
        kind: identity.kind,
        capabilities: Some(identity.capabilities),
        light_capabilities: identity.light_capabilities,
        slot: 0,
        online: false,
        battery: None,
    };
    assert(record@.unit_id =~= no_unit());
    record
}

/// A route names a receiver that is plugged in.
pub open spec fn receiver_present(route: Seq<char>, present: Seq<Seq<char>>) -> bool {
    receiver_uid(route) is Some && present.contains(receiver_uid(route)->Some_0)
}

/// Whether a device can only be reached through receivers, and none of those is
/// plugged in. Its routes are its own key and those it was linked to; a link
/// that names no receiver might reach it still.
pub open spec fn unreachable_entry(
    key: Seq<char>,
    links: Seq<Seq<char>>,
    present: Seq<Seq<char>>,
) -> bool {
    &&& forall|i: int| 0 <= i < links.len() ==> receiver_uid(#[trigger] links[i]) is Some
    &&& receiver_uid(key) is Some || links.len() > 0
    &&& !receiver_present(key, present)
    &&& forall|i: int| 0 <= i < links.len() ==> !receiver_present(#[trigger] links[i], present)
}

fn has_text(texts: &[String], text: &str) -> (found: bool)
    ensures
        found == views(texts@).contains(text@),
{
    let mut i: usize = 0;
    while i < texts.len()
        invariant
            i <= texts@.len(),
            forall|k: int| 0 <= k < i ==> views(texts@)[k] != text@,
        decreases texts@.len() - i,
    {
        if same_text(texts[i].as_str(), text) {
            assert(views(texts@)[i as int] == text@);
            return true;
        }
        i += 1;
    }
    false
}

/// Whether every receiver-shaped route this entry could be reached by names a
/// receiver that is not currently plugged in.
pub fn entry_is_unreachable(key: &str, links: &[String], present_receivers: &[String])
    -> (unreachable: bool)
    ensures
        unreachable == unreachable_entry(key@, views(links@), views(present_receivers@)),
{
    let ghost routes = views(links@);
    let ghost present = views(present_receivers@);
    let mut absent = true;
    let mut i: usize = 0;
    while i < links.len()
        invariant
            i <= links@.len(),
            routes == views(links@),
            present == views(present_receivers@),
            forall|k: int| 0 <= k < i ==> receiver_uid(#[trigger] routes[k]) is Some,
            absent ==> forall|k: int|
                0 <= k < i ==> !receiver_present(#[trigger] routes[k], present),
            !absent ==> exists|k: int|
                0 <= k < i && receiver_present(#[trigger] routes[k], present),
        decreases links@.len() - i,
    {
        assert(routes[i as int] == links@[i as int]@);
        match receiver_uid_of(links[i].as_str()) {
            Some(uid) => {
                if has_text(present_receivers, uid.as_str()) {
                    assert(receiver_present(routes[i as int], present));
                    absent = false;
                }
            },
            None => {
                assert(receiver_uid(routes[i as int]) is None);
                return false;
            },
        }
        i += 1;
    }
    match receiver_uid_of(key) {
        Some(uid) => absent && !has_text(present_receivers, uid.as_str()),
        None => absent && links.len() > 0,
    }
}

impl Sortable for KnownDevice {
    open spec fn sort_key() -> spec_fn(KnownView) -> SortKey {
        |known: KnownView| (known.identity.model_info is None, seq![known.key])
    }

    fn comes_before(&self, other: &Self) -> (before: bool) {
        proof {
            let a = seq![self@.key];
            let b = seq![other@.key];
            assert(a.skip(1) =~= Seq::<Seq<char>>::empty());
            assert(b.skip(1) =~= Seq::<Seq<char>>::empty());
            reveal_with_fuel(crate::sorting::texts_before, 2);
            crate::text::texts_are_ordered(self@.key, other@.key);
        }
        let left = self.identity.model_info.is_none();
        let right = other.identity.model_info.is_none();
        if left != right {
            right
        } else {
            sorts_before(self.key.as_str(), other.key.as_str())
        }
    }
}

/// Some record of the list has this configuration key.
pub open spec fn lists_key(list: Seq<RecordView>, key: Seq<char>) -> bool {
    exists|i: int| 0 <= i < list.len() && (#[trigger] list[i]).config_key == key
}

/// Some record of the list has this model key.
pub open spec fn lists_model(list: Seq<RecordView>, key: Seq<char>) -> bool {
    exists|i: int| 0 <= i < list.len() && (#[trigger] list[i]).model_key == key
}

/// Some record of the list has this product id on the wire.
pub open spec fn lists_pid(list: Seq<RecordView>, pid: Seq<char>) -> bool {
    exists|i: int| 0 <= i < list.len() && (#[trigger] list[i]).wire_pid() == Some(pid)
}

/// Whether a known device gets a placeholder in this list.
///
/// A key that names a model rather than a device is a duplicate where that
/// model, or its product id, is already listed.
pub open spec fn admitted(
    list: Seq<RecordView>,
    known: KnownView,
    present: Seq<Seq<char>>,
) -> bool {
    &&& !known.transient
    &&& !unreachable_entry(known.key, known.links, present)
    &&& !lists_key(list, known.key)
    &&& known.physical || {
        &&& !lists_model(list, known.model_key(known.identity.model_info))
        &&& known.placeholder().wire_pid() is Some ==> !lists_pid(
            list,
            known.placeholder().wire_pid()->Some_0,
        )
    }
}

/// The list once each of these devices was admitted or turned away.
pub open spec fn with_known(
    list: Seq<RecordView>,
    known: Seq<KnownView>,
    present: Seq<Seq<char>>,
) -> Seq<RecordView>
    decreases known.len(),
{
    if known.len() == 0 {
        list
    } else {
        let before = with_known(list, known.drop_last(), present);
        if admitted(before, known.last(), present) {
            before.push(known.last().placeholder())
        } else {
            before
        }
    }
}

/// The list with placeholders for known devices: those with a described model
/// come first, and then the order is that of their keys.
pub open spec fn with_offline(
    list: Seq<RecordView>,
    known: Seq<KnownView>,
    present: Seq<Seq<char>>,
) -> Seq<RecordView> {
    with_known(list, arranged(known, KnownDevice::sort_key()), present)
}

fn key_is_listed(list: &[DeviceRecord], key: &str) -> (found: bool)
    ensures
        found == lists_key(views(list@), key@),
{
    let mut i: usize = 0;
    while i < list.len()
        invariant
            i <= list@.len(),
            forall|k: int| 0 <= k < i ==> (#[trigger] views(list@)[k]).config_key != key@,
        decreases list@.len() - i,
    {
        assert(views(list@)[i as int] == list@[i as int]@);
        if same_text(list[i].config_key.as_str(), key) {
            return true;
        }
        i += 1;
    }
    false
}

fn model_is_listed(list: &[DeviceRecord], key: &str) -> (found: bool)
    ensures
        found == lists_model(views(list@), key@),
{
    let mut i: usize = 0;
    while i < list.len()
        invariant
            i <= list@.len(),
            forall|k: int| 0 <= k < i ==> (#[trigger] views(list@)[k]).model_key != key@,
        decreases list@.len() - i,
    {
        assert(views(list@)[i as int] == list@[i as int]@);
        if same_text(list[i].model_key.as_str(), key) {
            return true;
        }
        i += 1;
    }
    false
}

fn pid_is_listed(list: &[DeviceRecord], pid: &str) -> (found: bool)
    ensures
        found == lists_pid(views(list@), pid@),
{
    let mut i: usize = 0;
    while i < list.len()
        invariant
            i <= list@.len(),
            forall|k: int| 0 <= k < i ==> (#[trigger] views(list@)[k]).wire_pid() != Some(pid@),
        decreases list@.len() - i,
    {
        assert(views(list@)[i as int] == list@[i as int]@);
        if let Some(other) = record_wire_pid(&list[i]) {
            if same_text(other.as_str(), pid) {
                return true;
            }
        }
        i += 1;
    }
    false
}

fn placeholder_for(list: &[DeviceRecord], known: &KnownDevice, present_receivers: &[String])
    -> (record: Option<DeviceRecord>)
    ensures
        match record {
            Some(record) => admitted(views(list@), known@, views(present_receivers@)) && record@
                == known@.placeholder(),
            None => !admitted(views(list@), known@, views(present_receivers@)),
        },
{
    if known.transient {
        return None;
    }
    if entry_is_unreachable(known.key.as_str(), known.links.as_slice(), present_receivers) {
        return None;
    }
    if key_is_listed(list, known.key.as_str()) {
        return None;
    }
    let record = offline_record(known);
    if !known.physical {
        let model_key = match (&known.identity.model_info, &known.model) {
            (Some(_), Some(lookup)) => lookup.config_key.clone(),
            _ => known.key.clone(),
        };
        if model_is_listed(list, model_key.as_str()) {
            return None;
        }
        if let Some(pid) = record_wire_pid(&record) {
            if pid_is_listed(list, pid.as_str()) {
                return None;
            }
        }
    }
    Some(record)
}

/// Append an offline placeholder for every known device not already present in
/// `list`, skipping unreachable devices and invalid transient identities.
pub fn append_offline_known(
    list: &mut Vec<DeviceRecord>,
    known: Vec<KnownDevice>,
    present_receivers: &[String],
)
    ensures
        views(final(list)@) == with_offline(
            views(old(list)@),
            views(known@),
            views(present_receivers@),
        ),
{
    let known = arrange(known);
    let ghost live = views(list@);
    let ghost entries = views(known@);
    let ghost present = views(present_receivers@);
    let mut i: usize = 0;
    assert(entries.take(0) =~= Seq::<KnownView>::empty());
    while i < known.len()
        invariant
            i <= known@.len(),
            entries == views(known@),
            present == views(present_receivers@),
            views(list@) == with_known(live, entries.take(i as int), present),
        decreases known@.len() - i,
    {
        let ghost before = views(list@);
        proof {
            assert(entries.take(i + 1).drop_last() =~= entries.take(i as int));
            assert(entries.take(i + 1).last() == known@[i as int]@);
        }
        if let Some(record) = placeholder_for(list.as_slice(), &known[i], present_receivers) {
            list.push(record);
            assert(views(list@) =~= before.push(record@));
        }
        i += 1;
    }
    assert(entries.take(i as int) =~= entries);
}

} // verus!
