//! One entry of the device list.

use vstd::prelude::*;
use vstd::string::*;

use crate::devices::codename::{blank, is_blank};
use crate::devices::model::{
    copy_asset, copy_model, copy_text, no_capabilities, no_unit, AssetView, BatteryInfo,
    Capabilities, DeviceKind, DeviceModelInfo, LightCapabilities, ModelView, ResolvedAsset,
};
use crate::route::{DeviceRoute, RouteView};
use crate::seqs::{opt_view, views};
use crate::text::{
    after_prefix, hex4, lower_text, push_hex4, same_text, strip_prefix, to_lower_text,
};

verus! {

/// Key of the per-device caches of a user interface.
#[derive(Debug, PartialEq, Eq)]
pub struct DeviceKey(pub String);

impl View for DeviceKey {
    type V = Seq<char>;

    open spec fn view(&self) -> Seq<char> {
        self.0@
    }
}

/// One device with everything that a user interface needs to switch to it.
#[derive(Debug, PartialEq, Eq)]
pub struct DeviceRecord {
    /// Key used for persisted hardware settings. A serial-less camera uses a
    /// model-scoped key here.
    pub config_key: String,
    /// The key that the device's settings ultimately belong under, where it has
    /// one that is derived from its own identity.
    pub canonical_key: Option<String>,
    /// Whether `config_key` identifies one physical device and may be written to
    /// configuration.
    pub persistent: bool,
    /// Key of the route that the record was reached by.
    pub route_key: String,
    /// Text that sorts as the record's stable identity does.
    pub stable_order: String,
    /// Stable model key, for artwork and diagnostics.
    pub model_key: String,
    /// Hardware model name.
    pub model_name: String,
    /// Effective user-facing name: the configured alias, or the model name.
    pub display_name: String,
    /// Artwork, if any was found.
    pub asset: Option<ResolvedAsset>,
    /// What the device says about its model.
    pub model_info: Option<DeviceModelInfo>,
    /// Raw codename.
    pub codename: Option<String>,
    /// Serial number.
    pub serial_number: Option<String>,
    /// Id of this unit.
    pub unit_id: [u8; 4],
    /// Standalone driver family, for a record that speaks no HID++.
    pub driver_id: Option<String>,
    /// Model identity in the asset registry, for standalone devices.
    pub registry_model_id: Option<String>,
    /// Route of hardware writes.
    pub route: Option<DeviceRoute>,
    /// Capture id of a camera.
    pub capture_id: Option<String>,
    /// What sort of device it is.
    pub kind: DeviceKind,
    /// What of it can be configured, where that was measured.
    pub capabilities: Option<Capabilities>,
    /// What of a standalone light can be controlled.
    pub light_capabilities: Option<LightCapabilities>,
    /// Pairing slot.
    pub slot: u8,
    /// Whether it answers.
    pub online: bool,
    /// State of its battery.
    pub battery: Option<BatteryInfo>,
}

/// Mathematical content of a [`DeviceRecord`].
pub struct RecordView {
    /// See [`DeviceRecord::config_key`].
    pub config_key: Seq<char>,
    /// See [`DeviceRecord::canonical_key`].
    pub canonical_key: Option<Seq<char>>,
    /// See [`DeviceRecord::persistent`].
    pub persistent: bool,
    /// See [`DeviceRecord::route_key`].
    pub route_key: Seq<char>,
    /// See [`DeviceRecord::stable_order`].
    pub stable_order: Seq<char>,
    /// See [`DeviceRecord::model_key`].
    pub model_key: Seq<char>,
    /// See [`DeviceRecord::model_name`].
    pub model_name: Seq<char>,
    /// See [`DeviceRecord::display_name`].
    pub display_name: Seq<char>,
    /// See [`DeviceRecord::asset`].
    pub asset: Option<AssetView>,
    /// See [`DeviceRecord::model_info`].
    pub model_info: Option<ModelView>,
    /// See [`DeviceRecord::codename`].
    pub codename: Option<Seq<char>>,
    /// See [`DeviceRecord::serial_number`].
    pub serial_number: Option<Seq<char>>,
    /// See [`DeviceRecord::unit_id`].
    pub unit_id: Seq<u8>,
    /// See [`DeviceRecord::driver_id`].
    pub driver_id: Option<Seq<char>>,
    /// See [`DeviceRecord::registry_model_id`].
    pub registry_model_id: Option<Seq<char>>,
    /// See [`DeviceRecord::route`].
    pub route: Option<RouteView>,
    /// See [`DeviceRecord::capture_id`].
    pub capture_id: Option<Seq<char>>,
    /// See [`DeviceRecord::kind`].
    pub kind: DeviceKind,
    /// See [`DeviceRecord::capabilities`].
    pub capabilities: Option<Capabilities>,
    /// See [`DeviceRecord::light_capabilities`].
    pub light_capabilities: Option<LightCapabilities>,
    /// See [`DeviceRecord::slot`].
    pub slot: u8,
    /// See [`DeviceRecord::online`].
    pub online: bool,
    /// See [`DeviceRecord::battery`].
    pub battery: Option<BatteryInfo>,
}

impl View for DeviceRecord {
    type V = RecordView;

    open spec fn view(&self) -> RecordView {
        RecordView {
            config_key: self.config_key@,
            canonical_key: opt_view(self.canonical_key),
            persistent: self.persistent,
            route_key: self.route_key@,
            stable_order: self.stable_order@,
            model_key: self.model_key@,
            model_name: self.model_name@,
            display_name: self.display_name@,
            asset: opt_view(self.asset),
            model_info: opt_view(self.model_info),
            codename: opt_view(self.codename),
            serial_number: opt_view(self.serial_number),
            unit_id: self.unit_id@,
            driver_id: opt_view(self.driver_id),
            registry_model_id: opt_view(self.registry_model_id),
            route: opt_view(self.route),
            capture_id: opt_view(self.capture_id),
            kind: self.kind,
            capabilities: self.capabilities,
            light_capabilities: self.light_capabilities,
            slot: self.slot,
            online: self.online,
            battery: self.battery,
        }
    }
}

impl Clone for DeviceRecord {
    fn clone(&self) -> (copy: Self)
        ensures
            copy == *self,
    {
        DeviceRecord {
            config_key: self.config_key.clone(),
            canonical_key: copy_text(&self.canonical_key),
            persistent: self.persistent,
            route_key: self.route_key.clone(),
            stable_order: self.stable_order.clone(),
            model_key: self.model_key.clone(),
            model_name: self.model_name.clone(),
            display_name: self.display_name.clone(),
            asset: copy_asset(&self.asset),
            model_info: copy_model(&self.model_info),
            codename: copy_text(&self.codename),
            serial_number: copy_text(&self.serial_number),
            unit_id: self.unit_id,
            driver_id: copy_text(&self.driver_id),
            registry_model_id: copy_text(&self.registry_model_id),
            route: match &self.route {
                Some(route) => Some(route.clone()),
                None => None,
            },
            capture_id: copy_text(&self.capture_id),
            kind: self.kind,
            capabilities: self.capabilities,
            light_capabilities: self.light_capabilities,
            slot: self.slot,
            online: self.online,
            battery: self.battery,
        }
    }
}

impl RecordView {
    /// The configuration key, where settings may be persisted under it.
    pub open spec fn persistent_key(self) -> Option<Seq<char>> {
        if self.persistent {
            Some(self.config_key)
        } else {
            None
        }
    }

    /// What tells this live source from another: the capture id of a camera that
    /// has one, and the configuration key of everything else.
    pub open spec fn inventory_key(self) -> Seq<char> {
        match self.capture_id {
            Some(id) if self.kind == DeviceKind::Camera && id.len() > 0 => "cam-live:"@ + id,
            _ => self.config_key,
        }
    }

    /// What user-facing state is kept under: a camera without a serial number
    /// has no configuration key of its own, and so goes by its capture id.
    pub open spec fn record_key(self) -> Seq<char> {
        if self.kind == DeviceKind::Camera && (self.serial_number is None || is_blank(
            self.serial_number->Some_0,
        )) {
            self.inventory_key()
        } else {
            self.config_key
        }
    }

    /// The product id on the wire: of the described model, or else of a model
    /// key that spells out a wireless product id.
    pub open spec fn wire_pid(self) -> Option<Seq<char>> {
        if self.model_info is Some && self.model_info->Some_0.model_ids[0] != 0 {
            Some(hex4(self.model_info->Some_0.model_ids[0] as nat))
        } else {
            match after_prefix(self.model_key, "wpid"@) {
                Some(rest) => Some(lower_text(rest)),
                None => None,
            }
        }
    }
}

impl DeviceRecord {
    /// Key for the per-device caches of a user interface.
    pub fn device_key(&self) -> (key: DeviceKey)
        ensures
            key@ == self@.config_key,
    {
        DeviceKey(self.config_key.clone())
    }

    /// The configuration key, only when it is safe to persist settings.
    pub fn persistent_config_key(&self) -> (key: Option<&str>)
        ensures
            match (key, self@.persistent_key()) {
                (Some(key), Some(expected)) => key@ == expected,
                (None, None) => true,
                _ => false,
            },
    {
        if self.persistent {
            Some(self.config_key.as_str())
        } else {
            None
        }
    }

    /// Whether this record may participate in persistent configuration.
    pub fn is_persistent(&self) -> (persistent: bool)
        ensures
            persistent == self@.persistent,
    {
        self.persistent
    }

    /// Key used to reconcile this live source across inventory snapshots.
    ///
    /// Cameras may share a model-scoped config key, so they reconcile on their
    /// capture id instead; settings still persist under the config key.
    pub fn inventory_key(&self) -> (key: String)
        ensures
            key@ == self@.inventory_key(),
    {
        if self.kind == DeviceKind::Camera {
            if let Some(id) = &self.capture_id {
                if !id.as_str().is_empty() {
                    return "cam-live:".to_owned().concat(id.as_str());
                }
            }
        }
        self.config_key.clone()
    }

    /// Key for user-facing state such as selection, routing, and aliases.
    pub fn record_key(&self) -> (key: String)
        ensures
            key@ == self@.record_key(),
    {
        if self.kind == DeviceKind::Camera {
            let nameless = match &self.serial_number {
                Some(serial) => blank(serial.as_str()),
                None => true,
            };
            if nameless {
                return self.inventory_key();
            }
        }
        self.config_key.clone()
    }
}

/// The record's wire product id, used to suppress legacy same-model duplicate
/// cards without conflating physical device keys.
pub fn record_wire_pid(record: &DeviceRecord) -> (pid: Option<String>)
    ensures
        opt_view(pid) == record@.wire_pid(),
{
    if let Some(model) = &record.model_info {
        let pid: u16 = model.model_ids[0];
        if pid != 0 {
            let mut text = String::new();
            push_hex4(&mut text, pid);
            assert(text@ =~= hex4(pid as nat));
            return Some(text);
        }
    }
    match strip_prefix(record.model_key.as_str(), "wpid") {
        Some(rest) => Some(to_lower_text(rest)),
        None => None,
    }
}

/// The kind that a device is shown as: the registry knows the model, and so
/// overrules what the device says.
pub fn effective_kind(hid_kind: DeviceKind, asset_kind: Option<DeviceKind>) -> (kind: DeviceKind)
    ensures
        kind == match asset_kind {
            Some(asset_kind) => asset_kind,
            None => hid_kind,
        },
{
    match asset_kind {
        Some(asset_kind) => asset_kind,
        None => hid_kind,
    }
}

/// Some persistent record has this key.
pub open spec fn persisted_within(list: Seq<RecordView>, key: Seq<char>) -> bool {
    exists|i: int| 0 <= i < list.len() && (#[trigger] list[i]).persistent_key() == Some(key)
}

/// Position of the device to begin with: the saved one, or else the first.
pub fn pick_initial_device(list: &[DeviceRecord], saved: Option<&str>) -> (index: usize)
    ensures
        list@.len() > 0 ==> index < list@.len(),
        match saved {
            None => index == 0,
            Some(key) => {
                let records = views(list@);
                if persisted_within(records, key@) {
                    &&& records[index as int].persistent_key() == Some(key@)
                    &&& forall|k: int|
                        0 <= k < index ==> (#[trigger] records[k]).persistent_key() != Some(key@)
                } else {
                    index == 0
                }
            },
        },
{
    let key = match saved {
        Some(key) => key,
        None => return 0,
    };
    let ghost records = views(list@);
    let mut i: usize = 0;
    while i < list.len()
        invariant
            i <= list@.len(),
            saved == Some(key),
            records == views(list@),
            forall|k: int| 0 <= k < i ==> (#[trigger] records[k]).persistent_key() != Some(key@),
        decreases list@.len() - i,
    {
        assert(records[i as int] == list@[i as int]@);
        if list[i].is_persistent() && same_text(list[i].config_key.as_str(), key) {
            assert(records[i as int].persistent_key() == Some(key@));
            return i;
        }
        i += 1;
    }
    0
}

/// A synthetic keyboard, by which lighting controls can be tried without the
/// hardware.
pub open spec fn demo_view() -> RecordView {
    RecordView {
        config_key: "demo-g513"@,
        canonical_key: None,
        persistent: true,
        route_key: "demo-g513"@,
        stable_order: ""@,
        model_key: "demo-g513"@,
        model_name: "Logitech G513"@,
        display_name: "Logitech G513"@,
        asset: None,
        model_info: None,
        codename: None,
        serial_number: None,
        unit_id: no_unit(),
        driver_id: None,
        registry_model_id: None,
        route: None,
        capture_id: None,
        kind: DeviceKind::Keyboard,
        capabilities: Some(Capabilities { lighting: true, ..no_capabilities() }),
        light_capabilities: None,
        slot: 0,
        online: true,
        battery: None,
    }
}

/// The synthetic keyboard, sorted by `stable_order`. Having no route, it takes
/// no hardware writes.
pub fn demo_keyboard(stable_order: String) -> (record: DeviceRecord)
    ensures
        record@ == (RecordView { stable_order: stable_order@, ..demo_view() }),
{
    let capabilities = Capabilities { lighting: true, ..Capabilities::default() };
    let record = DeviceRecord {
        config_key: "demo-g513".to_owned(),
        canonical_key: None,
        persistent: true,
        route_key: "demo-g513".to_owned(),
        stable_order,
        model_key: "demo-g513".to_owned(),
        model_name: "Logitech G513".to_owned(),
        display_name: "Logitech G513".to_owned(),
        asset: None,
        model_info: None,
        codename: None,
        serial_number: None,
        unit_id: [0, 0, 0, 0],
        driver_id: None,
        registry_model_id: None,
        route: None,
        capture_id: None,
        kind: DeviceKind::Keyboard,
        capabilities: Some(capabilities),
        light_capabilities: None,
        slot: 0,
        online: true,
        battery: None,
    };
    assert(record@.unit_id =~= no_unit());
    record
}

} // verus!
