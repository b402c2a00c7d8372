//! Plain descriptions of devices.

use vstd::prelude::*;
use vstd::string::*;

use crate::seqs::opt_view;
use crate::text::{all_hex, hex_number, is_all_hex, parse_hex};

verus! {

/// What sort of device something is.
#[derive(Debug, Clone, Copy, PartialEq, Eq, Structural)]
pub enum DeviceKind {
    /// A keyboard.
    Keyboard,
    /// A mouse.
    Mouse,
    /// A trackball.
    Trackball,
    /// A webcam.
    Camera,
    /// A standalone light.
    Light,
    /// Nothing is known about it.
    Unknown,
}

/// What of a device can be configured.
#[derive(Debug, Clone, Copy, PartialEq, Eq, Structural)]
pub struct Capabilities {
    /// Its buttons.
    pub buttons: bool,
    /// Its pointer.
    pub pointer: bool,
    /// Its lighting.
    pub lighting: bool,
    /// Its host can be switched by command.
    pub host_switching: bool,
    /// It has keys that switch hosts and can be observed.
    pub host_switch_controls: bool,
}

impl Default for Capabilities {
    fn default() -> (none: Self)
        ensures
            none == no_capabilities(),
    {
        Capabilities {
            buttons: false,
            pointer: false,
            lighting: false,
            host_switching: false,
            host_switch_controls: false,
        }
    }
}

/// A device of which nothing can be configured.
pub open spec fn no_capabilities() -> Capabilities {
    Capabilities {
        buttons: false,
        pointer: false,
        lighting: false,
        host_switching: false,
        host_switch_controls: false,
    }
}

/// What of a standalone light can be controlled.
#[derive(Debug, Clone, Copy, PartialEq, Eq, Structural)]
pub struct LightCapabilities {
    /// Its brightness.
    pub brightness: bool,
    /// Its color temperature.
    pub temperature: bool,
}

/// State of a battery.
#[derive(Debug, Clone, Copy, PartialEq, Eq, Structural)]
pub struct BatteryInfo {
    /// State of charge in percent.
    pub percentage: u8,
    /// Whether it is charging.
    pub charging: bool,
}

/// Transports that a model speaks.
#[derive(Debug, Clone, Copy, PartialEq, Eq, Structural)]
pub struct DeviceTransports {
    /// USB.
    pub usb: bool,
    /// eQuad.
    pub equad: bool,
    /// Bluetooth Classic.
    pub bluetooth: bool,
    /// Bluetooth Low Energy.
    pub bluetooth_le: bool,
}

/// A model of which no transport is known.
pub open spec fn no_transports() -> DeviceTransports {
    DeviceTransports { usb: false, equad: false, bluetooth: false, bluetooth_le: false }
}

impl Default for DeviceTransports {
    fn default() -> (none: Self)
        ensures
            none == no_transports(),
    {
        DeviceTransports { usb: false, equad: false, bluetooth: false, bluetooth_le: false }
    }
}

/// What a device says about its model.
#[derive(Debug, PartialEq, Eq)]
pub struct DeviceModelInfo {
    /// Number of firmware entities.
    pub entity_count: u8,
    /// Serial number, if it has one.
    pub serial_number: Option<String>,
    /// Id of this unit.
    pub unit_id: [u8; 4],
    /// Transports that it speaks.
    pub transports: DeviceTransports,
    /// Product id on each transport.
    pub model_ids: [u16; 3],
    /// Variant of the model.
    pub extended_model_id: u8,
}

/// Mathematical content of a [`DeviceModelInfo`].
pub struct ModelView {
    /// See [`DeviceModelInfo::entity_count`].
    pub entity_count: u8,
    /// See [`DeviceModelInfo::serial_number`].
    pub serial_number: Option<Seq<char>>,
    /// See [`DeviceModelInfo::unit_id`].
    pub unit_id: Seq<u8>,
    /// See [`DeviceModelInfo::transports`].
    pub transports: DeviceTransports,
    /// See [`DeviceModelInfo::model_ids`].
    pub model_ids: Seq<u16>,
    /// See [`DeviceModelInfo::extended_model_id`].
    pub extended_model_id: u8,
}

impl View for DeviceModelInfo {
    type V = ModelView;

    open spec fn view(&self) -> ModelView {
        ModelView {
            entity_count: self.entity_count,
            serial_number: opt_view(self.serial_number),
            unit_id: self.unit_id@,
            transports: self.transports,
            model_ids: self.model_ids@,
            extended_model_id: self.extended_model_id,
        }
    }
}

/// A copy of an optional text.
pub fn copy_text(text: &Option<String>) -> (copy: Option<String>)
    ensures
        copy == *text,
{
    match text {
        Some(text) => Some(text.clone()),
        None => None,
    }
}

impl Clone for DeviceModelInfo {
    fn clone(&self) -> (copy: Self)
        ensures
            copy == *self,
    {
        DeviceModelInfo {
            entity_count: self.entity_count,
            serial_number: copy_text(&self.serial_number),
            unit_id: self.unit_id,
            transports: self.transports,
            model_ids: self.model_ids,
            extended_model_id: self.extended_model_id,
        }
    }
}

/// A unit id that identifies no unit.
pub open spec fn no_unit() -> Seq<u8> {
    seq![0u8, 0u8, 0u8, 0u8]
}

/// A model of which only the product id and the variant are known.
pub open spec fn bare_model(product_id: u16, extended_model_id: u8) -> ModelView {
    ModelView {
        entity_count: 0,
        serial_number: None,
        unit_id: no_unit(),
        transports: no_transports(),
        model_ids: seq![product_id, 0u16, 0u16],
        extended_model_id,
    }
}

/// Describes a model of which only the product id and the variant are known.
pub fn bare_model_info(product_id: u16, extended_model_id: u8) -> (info: DeviceModelInfo)
    ensures
        info@ == bare_model(product_id, extended_model_id),
{
    let info = DeviceModelInfo {
        entity_count: 0,
        serial_number: None,
        unit_id: [0, 0, 0, 0],
        transports: DeviceTransports::default(),
        model_ids: [product_id, 0, 0],
        extended_model_id,
    };
    assert(info@.unit_id =~= no_unit());
    assert(info@.model_ids =~= seq![product_id, 0u16, 0u16]);
    info
}

/// The model that a legacy model-scoped key spells out: its last four digits
/// are the product id, and those in front of them the variant, which must fit
/// one byte.
pub open spec fn legacy_model(key: Seq<char>) -> Option<ModelView> {
    let split = key.len() - 4;
    if key.len() > 4 && all_hex(key) && hex_number(key.take(split)) <= 255 {
        Some(
            bare_model(
                hex_number(key.skip(split)) as u16,
                hex_number(key.take(split)) as u8,
            ),
        )
    } else {
        None
    }
}

proof fn four_digits_fit(s: Seq<char>)
    requires
        s.len() == 4,
        all_hex(s),
    ensures
        hex_number(s) <= 0xffff,
{
    let a = s.drop_last();
    let b = a.drop_last();
    let c = b.drop_last();
    let d = c.drop_last();
    assert(hex_value_small(s[0]) && hex_value_small(s[1]) && hex_value_small(s[2])
        && hex_value_small(s[3]));
    assert(hex_number(d) == 0);
    assert(hex_number(c) <= 0xf);
    assert(hex_number(b) <= 0xff);
    assert(hex_number(a) <= 0xfff);
}

spec fn hex_value_small(c: char) -> bool {
    crate::text::hex_value(c)->Some_0 < 16
}

/// Reads the model out of a legacy model-scoped key.
pub fn model_info_from_legacy_model_key(key: &str) -> (info: Option<DeviceModelInfo>)
    ensures
        opt_view(info) == legacy_model(key@),
{
    let count: usize = key.unicode_len();
    if count <= 4 || !is_all_hex(key) {
        return None;
    }
    let split: usize = count - 4;
    let variant = key.substring_char(0, split);
    let product = key.substring_char(split, count);
    proof {
        assert(variant@ =~= key@.take(split as int));
        assert(product@ =~= key@.skip(split as int));
        assert forall|i: int| 0 <= i < variant@.len() implies crate::text::hex_value(
            #[trigger] variant@[i],
        ) is Some by {
            assert(variant@[i] == key@[i]);
        }
        assert forall|i: int| 0 <= i < product@.len() implies crate::text::hex_value(
            #[trigger] product@[i],
        ) is Some by {
            assert(product@[i] == key@[split + i]);
        }
        four_digits_fit(product@);
    }
    let product_id = match parse_hex(product, 0xffff) {
        Some(product_id) => product_id,
        None => return None,
    };
    match parse_hex(variant, 255) {
        Some(extended) => Some(bare_model_info(product_id, extended as u8)),
        None => None,
    }
}

/// Artwork that was found for a device.
#[derive(Debug, PartialEq, Eq)]
pub struct ResolvedAsset {
    /// Curated name of the model.
    pub display_name: String,
    /// Kind that the registry gives the model, if it models it.
    pub kind: Option<DeviceKind>,
    /// Where the picture is.
    pub image: String,
}

/// Mathematical content of a [`ResolvedAsset`].
pub struct AssetView {
    /// See [`ResolvedAsset::display_name`].
    pub display_name: Seq<char>,
    /// See [`ResolvedAsset::kind`].
    pub kind: Option<DeviceKind>,
    /// See [`ResolvedAsset::image`].
    pub image: Seq<char>,
}

impl View for ResolvedAsset {
    type V = AssetView;

    open spec fn view(&self) -> AssetView {
        AssetView { display_name: self.display_name@, kind: self.kind, image: self.image@ }
    }
}

impl Clone for ResolvedAsset {
    fn clone(&self) -> (copy: Self)
        ensures
            copy == *self,
    {
        ResolvedAsset {
            display_name: self.display_name.clone(),
            kind: self.kind,
            image: self.image.clone(),
        }
    }
}

/// A copy of optional artwork.
pub fn copy_asset(asset: &Option<ResolvedAsset>) -> (copy: Option<ResolvedAsset>)
    ensures
        copy == *asset,
{
    match asset {
        Some(asset) => Some(asset.clone()),
        None => None,
    }
}

/// A copy of an optional model description.
pub fn copy_model(info: &Option<DeviceModelInfo>) -> (copy: Option<DeviceModelInfo>)
    ensures
        copy == *info,
{
    match info {
        Some(info) => Some(info.clone()),
        None => None,
    }
}

} // verus!
