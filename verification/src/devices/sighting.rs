//! Devices as they were sighted, and the records they make.

use vstd::prelude::*;
use vstd::string::*;

use crate::devices::codename::{prettify_codename, pretty};
use crate::devices::model::{
    bare_model, bare_model_info, copy_asset, copy_text, no_unit, AssetView, BatteryInfo,
    Capabilities, DeviceKind, DeviceModelInfo, LightCapabilities, ModelView, ResolvedAsset,
};
use crate::devices::offline::{name_to_show, shown_name, LookupView, ModelLookup};
use crate::devices::record::{effective_kind, DeviceRecord, RecordView};
use crate::route::{DeviceRoute, RouteView, DIRECT_DEVICE_INDEX};
use crate::seqs::{opt_view, views};
use crate::text::{decimal, hex4, push_decimal, push_hex4};

verus! {

/// What a device says of itself that tells it from others of its model.
#[derive(Debug, PartialEq, Eq)]
pub struct OfferedIdentity {
    /// Serial number.
    pub serial_number: Option<String>,
    /// Id of the unit.
    pub unit_id: [u8; 4],
}

/// Mathematical content of an [`OfferedIdentity`].
pub struct OfferedView {
    /// See [`OfferedIdentity::serial_number`].
    pub serial_number: Option<Seq<char>>,
    /// See [`OfferedIdentity::unit_id`].
    pub unit_id: Seq<u8>,
}

impl View for OfferedIdentity {
    type V = OfferedView;

    open spec fn view(&self) -> OfferedView {
        OfferedView { serial_number: opt_view(self.serial_number), unit_id: self.unit_id@ }
    }
}

/// The identity by which the keys of a sighting may be resolved: a device that
/// does not answer vouches for none.
pub open spec fn identity_offered(
    serial_number: Option<Seq<char>>,
    unit_id: Seq<u8>,
    online: bool,
) -> Option<OfferedView> {
    if online {
        Some(OfferedView { serial_number, unit_id })
    } else {
        None
    }
}

/// Tells by which identity the keys of a sighting may be resolved.
pub fn offered_identity(serial_number: &Option<String>, unit_id: [u8; 4], online: bool) -> (offered:
    Option<OfferedIdentity>)
    ensures
        offered is Some <==> online,
        offered matches Some(identity) ==> identity.serial_number == *serial_number
            && identity.unit_id == unit_id,
        opt_view(offered) == identity_offered(opt_view(*serial_number), unit_id@, online),
{
    if online {
        Some(OfferedIdentity { serial_number: copy_text(serial_number), unit_id })
    } else {
        None
    }
}

/// The keys that the configuration and the stable identity give a sighting.
///
/// The persistent and the canonical key are resolved by the identity that
/// [`offered_identity`] allows, and by the route alone where it allows none.
#[derive(Debug)]
pub struct SightingKeys {
    /// Key under which settings may be persisted, where there is one.
    pub persistent_key: Option<String>,
    /// Key that lasts as long as the program, for want of a persistent one.
    pub runtime_key: String,
    /// Key derived from the device's own identity.
    pub canonical_key: Option<String>,
    /// Key of the route.
    pub route_key: String,
    /// Text that sorts as the stable identity does.
    pub stable_order: String,
}

/// Mathematical content of [`SightingKeys`].
pub struct KeysView {
    /// See [`SightingKeys::persistent_key`].
    pub persistent_key: Option<Seq<char>>,
    /// See [`SightingKeys::runtime_key`].
    pub runtime_key: Seq<char>,
    /// See [`SightingKeys::canonical_key`].
    pub canonical_key: Option<Seq<char>>,
    /// See [`SightingKeys::route_key`].
    pub route_key: Seq<char>,
    /// See [`SightingKeys::stable_order`].
    pub stable_order: Seq<char>,
}

impl View for SightingKeys {
    type V = KeysView;

    open spec fn view(&self) -> KeysView {
        KeysView {
            persistent_key: opt_view(self.persistent_key),
            runtime_key: self.runtime_key@,
            canonical_key: opt_view(self.canonical_key),
            route_key: self.route_key@,
            stable_order: self.stable_order@,
        }
    }
}

impl KeysView {
    /// The key of the record.
    pub open spec fn config_key(self) -> Seq<char> {
        match self.persistent_key {
            Some(key) => key,
            None => self.runtime_key,
        }
    }
}

impl SightingKeys {
    fn config_key(&self) -> (key: String)
        ensures
            key@ == self@.config_key(),
    {
        match &self.persistent_key {
            Some(key) => key.clone(),
            None => self.runtime_key.clone(),
        }
    }
}

/// The model of a paired device.
#[derive(Debug)]
pub struct PairedModel {
    /// What the device says about its model.
    pub info: DeviceModelInfo,
    /// What is known about the model from elsewhere.
    pub lookup: ModelLookup,
}

/// Mathematical content of a [`PairedModel`].
pub struct PairedModelView {
    /// See [`PairedModel::info`].
    pub info: ModelView,
    /// See [`PairedModel::lookup`].
    pub lookup: LookupView,
}

impl View for PairedModel {
    type V = PairedModelView;

    open spec fn view(&self) -> PairedModelView {
        PairedModelView { info: self.info@, lookup: self.lookup@ }
    }
}

/// A device that is paired with a receiver, or attached directly.
#[derive(Debug)]
pub struct PairedSighting {
    /// Pairing slot.
    pub slot: u8,
    /// Raw codename.
    pub codename: Option<String>,
    /// Wireless product id.
    pub wpid: Option<u16>,
    /// Kind that the device says it is.
    pub kind: DeviceKind,
    /// Whether it answers.
    pub online: bool,
    /// State of its battery.
    pub battery: Option<BatteryInfo>,
    /// Its model, where it described one.
    pub model: Option<PairedModel>,
    /// What of it can be configured.
    pub capabilities: Option<Capabilities>,
    /// Route to it.
    pub route: Option<DeviceRoute>,
    /// Keys it goes by.
    pub keys: SightingKeys,
    /// Name of its slot, for want of a better one.
    pub slot_name: String,
}

/// Mathematical content of a [`PairedSighting`].
pub struct PairedView {
    /// See [`PairedSighting::slot`].
    pub slot: u8,
    /// See [`PairedSighting::codename`].
    pub codename: Option<Seq<char>>,
    /// See [`PairedSighting::wpid`].
    pub wpid: Option<u16>,
    /// See [`PairedSighting::kind`].
    pub kind: DeviceKind,
    /// See [`PairedSighting::online`].
    pub online: bool,
    /// See [`PairedSighting::battery`].
    pub battery: Option<BatteryInfo>,
    /// See [`PairedSighting::model`].
    pub model: Option<PairedModelView>,
    /// See [`PairedSighting::capabilities`].
    pub capabilities: Option<Capabilities>,
    /// See [`PairedSighting::route`].
    pub route: Option<RouteView>,
    /// See [`PairedSighting::keys`].
    pub keys: KeysView,
    /// See [`PairedSighting::slot_name`].
    pub slot_name: Seq<char>,
}

impl View for PairedSighting {
    type V = PairedView;

    open spec fn view(&self) -> PairedView {
        PairedView {
            slot: self.slot,
            codename: opt_view(self.codename),
            wpid: self.wpid,
            kind: self.kind,
            online: self.online,
            battery: self.battery,
            model: opt_view(self.model),
            capabilities: self.capabilities,
            route: opt_view(self.route),
            keys: self.keys@,
            slot_name: self.slot_name@,
        }
    }
}

impl PairedView {
    /// The key of the model. A device that described none goes by its wireless
    /// product id, or by its slot as a last resort.
    pub open spec fn model_key(self) -> Seq<char> {
        match (self.model, self.wpid) {
            (Some(model), _) => model.lookup.config_key,
            (None, Some(wpid)) => "wpid"@ + hex4(wpid as nat),
            (None, None) => "slot"@ + decimal(self.slot as nat),
        }
    }

    /// The artwork, where the device described a model.
    pub open spec fn asset(self) -> Option<AssetView> {
        match self.model {
            Some(model) => model.lookup.asset,
            None => None,
        }
    }

    /// The name: that of the artwork, or the tidied codename, or the slot's.
    pub open spec fn name(self) -> Seq<char> {
        match (self.asset(), self.codename) {
            (Some(asset), _) => asset.display_name,
            (None, Some(codename)) => pretty(codename),
            (None, None) => self.slot_name,
        }
    }

    /// The record of the device.
    pub open spec fn record(self) -> RecordView {
        RecordView {
            config_key: self.keys.config_key(),
            canonical_key: self.keys.canonical_key,
            persistent: self.keys.persistent_key is Some,
            route_key: self.keys.route_key,
            stable_order: self.keys.stable_order,
            model_key: self.model_key(),
            model_name: self.name(),
            display_name: self.name(),
            asset: self.asset(),
            model_info: match self.model {
                Some(model) => Some(model.info),
                None => None,
            },
            codename: self.codename,
            serial_number: match self.model {
                Some(model) => model.info.serial_number,
                None => None,
            },
            unit_id: match self.model {
                Some(model) => model.info.unit_id,
                None => no_unit(),
            },
            driver_id: None,
            registry_model_id: None,
            route: self.route,
            capture_id: None,
            kind: match self.asset() {
                Some(AssetView { kind: Some(kind), .. }) => kind,
                _ => self.kind,
            },
            capabilities: self.capabilities,
            light_capabilities: None,
            slot: self.slot,
            online: self.online,
            battery: self.battery,
        }
    }
}

fn unmodelled_key(wpid: Option<u16>, slot: u8) -> (key: String)
    ensures
        key@ == match wpid {
            Some(wpid) => "wpid"@ + hex4(wpid as nat),
            None => "slot"@ + decimal(slot as nat),
        },
{
    match wpid {
        Some(wpid) => {
            let mut key = "wpid".to_owned();
            push_hex4(&mut key, wpid);
            key
        },
        None => {
            let mut key = "slot".to_owned();
            push_decimal(&mut key, slot as u64);
            key
        },
    }
}

fn copy_route(route: &Option<DeviceRoute>) -> (copy: Option<DeviceRoute>)
    ensures
        copy == *route,
{
    match route {
        Some(route) => Some(route.clone()),
        None => None,
    }
}

/// Makes the record of a paired device.
pub fn paired_record(paired: &PairedSighting) -> (record: DeviceRecord)
    ensures
        record@ == paired@.record(),
{
    let config_key = paired.keys.config_key();
    let (model_key, asset, model_info, serial_number, unit_id) = match &paired.model {
        Some(model) => (
            model.lookup.config_key.clone(),
            copy_asset(&model.lookup.asset),
            Some(model.info.clone()),
            copy_text(&model.info.serial_number),
            model.info.unit_id,
        ),
        None => (unmodelled_key(paired.wpid, paired.slot), None, None, None, [0, 0, 0, 0]),
    };
    assert(paired.model is None ==> unit_id@ =~= no_unit());
    let (display_name, asset_kind) = match (&asset, &paired.codename) {
        (Some(asset), _) => (asset.display_name.clone(), asset.kind),
        (None, Some(codename)) => (prettify_codename(codename.as_str()), None),
        (None, None) => (paired.slot_name.clone(), None),
    };
    DeviceRecord {
        config_key,
        canonical_key: copy_text(&paired.keys.canonical_key),
        persistent: paired.keys.persistent_key.is_some(),
        route_key: paired.keys.route_key.clone(),
        stable_order: paired.keys.stable_order.clone(),
        model_key,
        model_name: display_name.clone(),
        display_name,
        asset,
        model_info,
        codename: copy_text(&paired.codename),
        serial_number,
        unit_id,
        driver_id: None,
        registry_model_id: None,
        route: copy_route(&paired.route),
        capture_id: None,
        kind: effective_kind(paired.kind, asset_kind),
        capabilities: paired.capabilities,
        light_capabilities: None,
        slot: paired.slot,
        online: paired.online,
        battery: paired.battery,
    }
}

/// Address of a standalone HID node.
#[derive(Debug)]
pub struct RawHidAddress {
    /// USB vendor id.
    pub vendor_id: u16,
    /// USB product id.
    pub product_id: u16,
    /// HID usage page.
    pub usage_page: u16,
    /// HID usage id.
    pub usage_id: u16,
    /// What tells this node from another of the same model.
    pub identity: String,
}

/// A standalone device that speaks no HID++.
#[derive(Debug)]
pub struct StandaloneDevice {
    /// Where it is.
    pub address: RawHidAddress,
    /// Serial number.
    pub serial_number: Option<String>,
    /// Id of this unit.
    pub unit_id: [u8; 4],
    /// Driver family.
    pub driver_id: String,
    /// Model identity in the asset registry.
    pub registry_model_id: Option<String>,
    /// Name that its driver gives it.
    pub display_name: String,
    /// What sort of device it is.
    pub kind: DeviceKind,
    /// What of it can be configured.
    pub capabilities: Option<Capabilities>,
    /// What of a light can be controlled.
    pub light_capabilities: Option<LightCapabilities>,
    /// Whether it answers.
    pub online: bool,
    /// Keys it goes by.
    pub keys: SightingKeys,
    /// Artwork of its registry model, where it has one.
    pub registry_asset: Option<ResolvedAsset>,
}

/// Mathematical content of a [`StandaloneDevice`], with its address as a route.
pub struct StandaloneView {
    /// See [`StandaloneDevice::address`].
    pub route: RouteView,
    /// Product id of [`StandaloneDevice::address`].
    pub product_id: u16,
    /// See [`StandaloneDevice::serial_number`].
    pub serial_number: Option<Seq<char>>,
    /// See [`StandaloneDevice::unit_id`].
    pub unit_id: Seq<u8>,
    /// See [`StandaloneDevice::driver_id`].
    pub driver_id: Seq<char>,
    /// See [`StandaloneDevice::registry_model_id`].
    pub registry_model_id: Option<Seq<char>>,
    /// See [`StandaloneDevice::display_name`].
    pub display_name: Seq<char>,
    /// See [`StandaloneDevice::kind`].
    pub kind: DeviceKind,
    /// See [`StandaloneDevice::capabilities`].
    pub capabilities: Option<Capabilities>,
    /// See [`StandaloneDevice::light_capabilities`].
    pub light_capabilities: Option<LightCapabilities>,
    /// See [`StandaloneDevice::online`].
    pub online: bool,
    /// See [`StandaloneDevice::keys`].
    pub keys: KeysView,
    /// See [`StandaloneDevice::registry_asset`].
    pub registry_asset: Option<AssetView>,
}

impl View for StandaloneDevice {
    type V = StandaloneView;

    open spec fn view(&self) -> StandaloneView {
        StandaloneView {
            route: RouteView::RawHid {
                vendor_id: self.address.vendor_id,
                product_id: self.address.product_id,
                usage_page: self.address.usage_page,
                usage_id: self.address.usage_id,
                identity: self.address.identity@,
            },
            product_id: self.address.product_id,
            serial_number: opt_view(self.serial_number),
            unit_id: self.unit_id@,
            driver_id: self.driver_id@,
            registry_model_id: opt_view(self.registry_model_id),
            display_name: self.display_name@,
            kind: self.kind,
            capabilities: self.capabilities,
            light_capabilities: self.light_capabilities,
            online: self.online,
            keys: self.keys@,
            registry_asset: opt_view(self.registry_asset),
        }
    }
}

impl StandaloneView {
    /// The artwork, where the device is in the registry.
    pub open spec fn asset(self) -> Option<AssetView> {
        if self.registry_model_id is Some {
            self.registry_asset
        } else {
            None
        }
    }

    /// The record of the device. Its registry identity selects artwork only and
    /// does not change its model key.
    pub open spec fn record(self) -> RecordView {
        let name = shown_name(self.asset(), self.display_name);
        RecordView {
            config_key: self.keys.config_key(),
            canonical_key: self.keys.canonical_key,
            persistent: self.keys.persistent_key is Some,
            route_key: self.keys.route_key,
            stable_order: self.keys.stable_order,
            model_key: "raw:"@ + hex4(self.product_id as nat),
            model_name: name,
            display_name: name,
            asset: self.asset(),
            model_info: None,
            codename: None,
            serial_number: self.serial_number,
            unit_id: self.unit_id,
            driver_id: Some(self.driver_id),
            registry_model_id: self.registry_model_id,
            route: Some(self.route),
            capture_id: None,
            kind: self.kind,
            capabilities: self.capabilities,
            light_capabilities: self.light_capabilities,
            slot: DIRECT_DEVICE_INDEX,
            online: self.online,
            battery: None,
        }
    }
}

/// Makes the record of a standalone device.
pub fn standalone_record(device: &StandaloneDevice) -> (record: DeviceRecord)
    ensures
        record@ == device@.record(),
{
    let route = DeviceRoute::RawHid {
        vendor_id: device.address.vendor_id,
        product_id: device.address.product_id,
        usage_page: device.address.usage_page,
        usage_id: device.address.usage_id,
        identity: device.address.identity.clone(),
    };
    let asset = if device.registry_model_id.is_some() {
        copy_asset(&device.registry_asset)
    } else {
        None
    };
    let display_name = name_to_show(&asset, &device.display_name);
    let mut model_key = "raw:".to_owned();
    push_hex4(&mut model_key, device.address.product_id);
    DeviceRecord {
        config_key: device.keys.config_key(),
        canonical_key: copy_text(&device.keys.canonical_key),
        persistent: device.keys.persistent_key.is_some(),
        route_key: device.keys.route_key.clone(),
        stable_order: device.keys.stable_order.clone(),
        model_key,
        model_name: display_name.clone(),
        display_name,
        asset,
        model_info: None,
        codename: None,
        serial_number: copy_text(&device.serial_number),
        unit_id: device.unit_id,
        driver_id: Some(device.driver_id.clone()),
        registry_model_id: copy_text(&device.registry_model_id),
        route: Some(route),
        capture_id: None,
        kind: device.kind,
        capabilities: device.capabilities,
        light_capabilities: device.light_capabilities,
        slot: DIRECT_DEVICE_INDEX,
        online: device.online,
        battery: None,
    }
}

/// A webcam.
#[derive(Debug)]
pub struct Camera {
    /// USB product id.
    pub product_id: u16,
    /// Id by which the operating system opens it.
    pub unique_id: String,
    /// Name of the model.
    pub name: String,
    /// USB serial number.
    pub serial_number: Option<String>,
    /// Key of its settings.
    pub config_key: String,
    /// Artwork of its model.
    pub asset: Option<ResolvedAsset>,
    /// Text that sorts as its stable identity does.
    pub stable_order: String,
}

/// Mathematical content of a [`Camera`].
pub struct CameraView {
    /// See [`Camera::product_id`].
    pub product_id: u16,
    /// See [`Camera::unique_id`].
    pub unique_id: Seq<char>,
    /// See [`Camera::name`].
    pub name: Seq<char>,
    /// See [`Camera::serial_number`].
    pub serial_number: Option<Seq<char>>,
    /// See [`Camera::config_key`].
    pub config_key: Seq<char>,
    /// See [`Camera::asset`].
    pub asset: Option<AssetView>,
    /// See [`Camera::stable_order`].
    pub stable_order: Seq<char>,
}

impl View for Camera {
    type V = CameraView;

    open spec fn view(&self) -> CameraView {
        CameraView {
            product_id: self.product_id,
            unique_id: self.unique_id@,
            name: self.name@,
            serial_number: opt_view(self.serial_number),
            config_key: self.config_key@,
            asset: opt_view(self.asset),
            stable_order: self.stable_order@,
        }
    }
}

/// A minimal description standing in for a camera's, carrying just the USB
/// product id, by which the registry keys cameras.
pub fn camera_model_info(camera: &Camera) -> (info: DeviceModelInfo)
    ensures
        info@ == bare_model(camera.product_id, 0),
{
    bare_model_info(camera.product_id, 0)
}

impl CameraView {
    /// The record of the camera. Without a route or capabilities it stays clear
    /// of everything that speaks HID++.
    pub open spec fn record(self) -> RecordView {
        RecordView {
            config_key: self.config_key,
            canonical_key: None,
            persistent: true,
            route_key: self.config_key,
            stable_order: self.stable_order,
            model_key: hex4(self.product_id as nat),
            model_name: self.name,
            display_name: self.name,
            asset: self.asset,
            model_info: None,
            codename: None,
            serial_number: self.serial_number,
            unit_id: no_unit(),
            driver_id: None,
            registry_model_id: None,
            route: None,
            capture_id: Some(self.unique_id),
            kind: DeviceKind::Camera,
            capabilities: None,
            light_capabilities: None,
            slot: 0,
            online: true,
            battery: None,
        }
    }
}

/// Makes the record of a webcam.
pub fn camera_record(camera: &Camera) -> (record: DeviceRecord)
    ensures
        record@ == camera@.record(),
{
    let mut model_key = String::new();
    push_hex4(&mut model_key, camera.product_id);
    assert(model_key@ =~= hex4(camera.product_id as nat));
    let record = DeviceRecord {
        config_key: camera.config_key.clone(),
        canonical_key: None,
        persistent: true,
        route_key: camera.config_key.clone(),
        stable_order: camera.stable_order.clone(),
        model_key,
        model_name: camera.name.clone(),
        display_name: camera.name.clone(),
        asset: copy_asset(&camera.asset),
        model_info: None,
        codename: None,
        serial_number: copy_text(&camera.serial_number),
        unit_id: [0, 0, 0, 0],
        driver_id: None,
        registry_model_id: None,
        route: None,
        capture_id: Some(camera.unique_id.clone()),
        kind: DeviceKind::Camera,
        capabilities: None,
        light_capabilities: None,
        slot: 0,
        online: true,
        battery: None,
    };
    assert(record@.unit_id =~= no_unit());
    record
}

/// Appends the records of standalone devices, in their order.
pub fn append_standalone(list: &mut Vec<DeviceRecord>, devices: &[StandaloneDevice])
    ensures
        views(final(list)@) == views(old(list)@) + standalone_records(views(devices@)),
{
    let ghost before = views(list@);
    let ghost all = standalone_records(views(devices@));
    let mut i: usize = 0;
    assert(views(list@) =~= before + all.take(0));
    while i < devices.len()
        invariant
            i <= devices@.len(),
            all == standalone_records(views(devices@)),
            views(list@) == before + all.take(i as int),
        decreases devices@.len() - i,
    {
        let ghost now = views(list@);
        list.push(standalone_record(&devices[i]));
        proof {
            assert(views(devices@)[i as int] == devices@[i as int]@);
            assert(views(list@) =~= now.push(all[i as int]));
            assert(views(list@) =~= before + all.take(i + 1));
        }
        i += 1;
    }
    assert(all.take(i as int) =~= all);
}

/// The records of standalone devices.
pub open spec fn standalone_records(devices: Seq<StandaloneView>) -> Seq<RecordView> {
    devices.map_values(|device: StandaloneView| device.record())
}

} // verus!
